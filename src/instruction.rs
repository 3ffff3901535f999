use vstd::prelude::*;

use crate::registers::{Pair, Reg};

verus! {

/// The operation of an accumulator arithmetic or logic instruction.
#[derive(Clone, Copy, Debug, PartialEq, Eq, Structural)]
pub enum AluOp {
    Add,
    Adc,
    Sub,
    Sbc,
    And,
    Xor,
    Or,
    Cp,
}

/// A 16-bit value that `push` and `pop` move; `AF` carries the flags byte.
#[derive(Clone, Copy, Debug, PartialEq, Eq, Structural)]
pub enum StackPair {
    BC,
    DE,
    HL,
    AF,
}

/// The flag test of a conditional jump, call or return.
#[derive(Clone, Copy, Debug, PartialEq, Eq, Structural)]
pub enum Cond {
    NotZero,
    Zero,
    NotCarry,
    Carry,
}

/// Which way `hl` moves after a `(hl+)` or `(hl-)` access.
#[derive(Clone, Copy, Debug, PartialEq, Eq, Structural)]
pub enum HlStep {
    Increment,
    Decrement,
}

/// An instruction of the primary table.
#[derive(Clone, Copy, Debug, PartialEq, Eq, Structural)]
pub enum Instruction {
    /// `nop`
    Nop,
    /// `ld rr, d16`
    LoadPairImmediate(Pair),
    /// `ld (rr), a`
    StoreAIndirect(Pair),
    /// `ld a, (rr)`
    LoadAIndirect(Pair),
    /// `inc rr`
    IncPair(Pair),
    /// `dec rr`
    DecPair(Pair),
    /// `inc r`
    IncReg(Reg),
    /// `dec r`
    DecReg(Reg),
    /// `ld r, d8`
    LoadRegImmediate(Reg),
    /// `ld dst, src`
    LoadReg(Reg, Reg),
    /// `ld r, (hl)`
    LoadRegIndirect(Reg),
    /// `ld (hl), r`
    StoreRegIndirect(Reg),
    /// `ld (hl), d8`
    StoreImmediateIndirect,
    /// `inc (hl)`
    IncIndirect,
    /// `dec (hl)`
    DecIndirect,
    /// `ld (hl+), a` and `ld (hl-), a`
    StoreAHl(HlStep),
    /// `ld a, (hl+)` and `ld a, (hl-)`
    LoadAHl(HlStep),
    /// `ldh (a8), a`: stores at 0xFF00 + a8
    StoreHigh,
    /// `ldh a, (a8)`
    LoadHigh,
    /// `ld (c), a`: stores at 0xFF00 + c
    StoreHighC,
    /// `ld a, (c)`
    LoadHighC,
    /// `ld (a16), a`
    StoreAbsolute,
    /// `ld a, (a16)`
    LoadAbsolute,
    /// `ld (a16), sp`: lower byte first
    StoreSp,
    /// `ld sp, hl`
    LoadSpHl,
    /// `rlca`, `rrca`, `rla`, `rra`: the rotate on `a`, with Z cleared
    RotateA(ShiftOp),
    /// `cpl`: complements `a`
    Complement,
    /// `scf`: sets the carry flag
    SetCarry,
    /// `ccf`: flips the carry flag
    FlipCarry,
    /// `daa`: adjusts `a` to packed decimal after an addition or subtraction
    DecimalAdjust,
    /// `add sp, e8`
    AddSpOffset,
    /// `ld hl, sp+e8`
    LoadHlSpOffset,
    /// `add`, `adc`, `sub`, `sbc`, `and`, `xor`, `or`, `cp` with a register
    Alu(AluOp, Reg),
    /// the same with the byte at `hl`
    AluIndirect(AluOp),
    /// the same with an immediate byte
    AluImmediate(AluOp),
    /// `add hl, rr`
    AddHl(Pair),
    /// `jp a16`
    Jump,
    /// `jp cc, a16`
    JumpIf(Cond),
    /// `jp hl`
    JumpHl,
    /// `rst n`: a call to the fixed address `n`
    Restart(u8),
    /// `jr e8`
    JumpRelative,
    /// `jr cc, e8`
    JumpRelativeIf(Cond),
    /// `call a16`
    Call,
    /// `call cc, a16`
    CallIf(Cond),
    /// `ret`
    Return,
    /// `ret cc`
    ReturnIf(Cond),
    /// `push rr`
    Push(StackPair),
    /// `pop rr`
    Pop(StackPair),
    /// the prefix byte that selects the second table
    Prefix,
}

/// A rotate, shift or nibble swap of the prefixed table.
#[derive(Clone, Copy, Debug, PartialEq, Eq, Structural)]
pub enum ShiftOp {
    /// rotate left, bit 7 to carry and to bit 0
    Rlc,
    /// rotate right, bit 0 to carry and to bit 7
    Rrc,
    /// rotate left through carry
    Rl,
    /// rotate right through carry
    Rr,
    /// shift left, bit 0 cleared
    Sla,
    /// shift right, bit 7 kept
    Sra,
    /// exchange the two nibbles
    Swap,
    /// shift right, bit 7 cleared
    Srl,
}

/// An instruction of the table reached through the prefix byte.
#[derive(Clone, Copy, Debug, PartialEq, Eq, Structural)]
pub enum PrefixedInstruction {
    /// `rlc`, `rrc`, `rl`, `rr`, `sla`, `sra`, `swap`, `srl` on a register
    Shift(ShiftOp, Reg),
    /// `bit b, r`: Z is set when bit `b` of `r` is clear.
    Test(u8, Reg),
    /// `res b, r`: clears bit `b` of `r`.
    Reset(u8, Reg),
    /// `set b, r`: sets bit `b` of `r`.
    Raise(u8, Reg),
    /// a rotate, shift or swap of the byte at `hl`
    ShiftIndirect(ShiftOp),
    /// `bit b, (hl)`
    TestIndirect(u8),
    /// `res b, (hl)`
    ResetIndirect(u8),
    /// `set b, (hl)`
    RaiseIndirect(u8),
}

/// The register an operand field names; field 6 names memory at `hl`, which
/// these tables do not hold.
pub open spec fn reg_field(code: int) -> Option<Reg> {
    if code == 0 {
        Some(Reg::B)
    } else if code == 1 {
        Some(Reg::C)
    } else if code == 2 {
        Some(Reg::D)
    } else if code == 3 {
        Some(Reg::E)
    } else if code == 4 {
        Some(Reg::H)
    } else if code == 5 {
        Some(Reg::L)
    } else if code == 7 {
        Some(Reg::A)
    } else {
        None
    }
}

/// The 16-bit register a pair field names.
pub open spec fn pair_field(code: int) -> Pair {
    if code == 0 {
        Pair::BC
    } else if code == 1 {
        Pair::DE
    } else if code == 2 {
        Pair::HL
    } else {
        Pair::SP
    }
}

/// The pair a `push` or `pop` field names.
pub open spec fn stack_pair_field(code: int) -> StackPair {
    if code == 0 {
        StackPair::BC
    } else if code == 1 {
        StackPair::DE
    } else if code == 2 {
        StackPair::HL
    } else {
        StackPair::AF
    }
}

/// The operation an arithmetic field names.
pub open spec fn alu_field(code: int) -> AluOp {
    if code == 0 {
        AluOp::Add
    } else if code == 1 {
        AluOp::Adc
    } else if code == 2 {
        AluOp::Sub
    } else if code == 3 {
        AluOp::Sbc
    } else if code == 4 {
        AluOp::And
    } else if code == 5 {
        AluOp::Xor
    } else if code == 6 {
        AluOp::Or
    } else {
        AluOp::Cp
    }
}

/// The flag test a condition field names.
pub open spec fn cond_field(code: int) -> Cond {
    if code == 0 {
        Cond::NotZero
    } else if code == 1 {
        Cond::Zero
    } else if code == 2 {
        Cond::NotCarry
    } else {
        Cond::Carry
    }
}

/// The operation a shift field names.
pub open spec fn shift_field(code: int) -> ShiftOp {
    if code == 0 {
        ShiftOp::Rlc
    } else if code == 1 {
        ShiftOp::Rrc
    } else if code == 2 {
        ShiftOp::Rl
    } else if code == 3 {
        ShiftOp::Rr
    } else if code == 4 {
        ShiftOp::Sla
    } else if code == 5 {
        ShiftOp::Sra
    } else if code == 6 {
        ShiftOp::Swap
    } else {
        ShiftOp::Srl
    }
}

/// The primary opcode table; `None` where the table has no entry.
pub open spec fn opcode_table(opcode: u8) -> Option<Instruction> {
    let o = opcode as int;
    if o == 0x00 {
        Some(Instruction::Nop)
    } else if o < 0x40 && o % 16 == 0x1 {
        Some(Instruction::LoadPairImmediate(pair_field(o / 16)))
    } else if o == 0x07 || o == 0x0F || o == 0x17 || o == 0x1F {
        Some(Instruction::RotateA(shift_field(o / 8)))
    } else if o == 0x2F {
        Some(Instruction::Complement)
    } else if o == 0x37 {
        Some(Instruction::SetCarry)
    } else if o == 0x3F {
        Some(Instruction::FlipCarry)
    } else if o == 0x08 {
        Some(Instruction::StoreSp)
    } else if o == 0x27 {
        Some(Instruction::DecimalAdjust)
    } else if o == 0xE8 {
        Some(Instruction::AddSpOffset)
    } else if o == 0xF8 {
        Some(Instruction::LoadHlSpOffset)
    } else if o == 0xE9 {
        Some(Instruction::JumpHl)
    } else if o == 0xF9 {
        Some(Instruction::LoadSpHl)
    } else if o >= 0xC0 && o % 8 == 7 {
        Some(Instruction::Restart((o - 0xC7) as u8))
    } else if o == 0x22 || o == 0x32 {
        Some(Instruction::StoreAHl(if o == 0x22 { HlStep::Increment } else { HlStep::Decrement }))
    } else if o == 0x2A || o == 0x3A {
        Some(Instruction::LoadAHl(if o == 0x2A { HlStep::Increment } else { HlStep::Decrement }))
    } else if o == 0x34 {
        Some(Instruction::IncIndirect)
    } else if o == 0x35 {
        Some(Instruction::DecIndirect)
    } else if o == 0x36 {
        Some(Instruction::StoreImmediateIndirect)
    } else if 0x40 <= o < 0x80 && o != 0x76 && o % 8 == 6 {
        Some(Instruction::LoadRegIndirect(reg_field((o / 8) % 8)->0))
    } else if 0x70 <= o < 0x78 && o != 0x76 {
        Some(Instruction::StoreRegIndirect(reg_field(o % 8)->0))
    } else if 0x80 <= o < 0xC0 && o % 8 == 6 {
        Some(Instruction::AluIndirect(alu_field((o / 8) % 8)))
    } else if o >= 0xC0 && o % 8 == 6 {
        Some(Instruction::AluImmediate(alu_field((o / 8) % 8)))
    } else if o == 0xE0 {
        Some(Instruction::StoreHigh)
    } else if o == 0xF0 {
        Some(Instruction::LoadHigh)
    } else if o == 0xE2 {
        Some(Instruction::StoreHighC)
    } else if o == 0xF2 {
        Some(Instruction::LoadHighC)
    } else if o == 0xEA {
        Some(Instruction::StoreAbsolute)
    } else if o == 0xFA {
        Some(Instruction::LoadAbsolute)
    } else if o == 0x02 || o == 0x12 {
        Some(Instruction::StoreAIndirect(pair_field(o / 16)))
    } else if o == 0x0A || o == 0x1A {
        Some(Instruction::LoadAIndirect(pair_field(o / 16)))
    } else if o < 0x40 && o % 16 == 0x3 {
        Some(Instruction::IncPair(pair_field(o / 16)))
    } else if o < 0x40 && o % 16 == 0xB {
        Some(Instruction::DecPair(pair_field(o / 16)))
    } else if o < 0x40 && o % 8 == 4 && reg_field(o / 8) is Some {
        Some(Instruction::IncReg(reg_field(o / 8)->0))
    } else if o < 0x40 && o % 8 == 5 && reg_field(o / 8) is Some {
        Some(Instruction::DecReg(reg_field(o / 8)->0))
    } else if o < 0x40 && o % 8 == 6 && reg_field(o / 8) is Some {
        Some(Instruction::LoadRegImmediate(reg_field(o / 8)->0))
    } else if 0x40 <= o < 0x80 && reg_field((o / 8) % 8) is Some && reg_field(o % 8) is Some {
        Some(Instruction::LoadReg(reg_field((o / 8) % 8)->0, reg_field(o % 8)->0))
    } else if 0x80 <= o < 0xC0 && reg_field(o % 8) is Some {
        Some(Instruction::Alu(alu_field((o / 8) % 8), reg_field(o % 8)->0))
    } else if o < 0x40 && o % 16 == 0x9 {
        Some(Instruction::AddHl(pair_field(o / 16)))
    } else if o == 0x18 {
        Some(Instruction::JumpRelative)
    } else if o == 0x20 || o == 0x28 || o == 0x30 || o == 0x38 {
        Some(Instruction::JumpRelativeIf(cond_field(o / 8 - 4)))
    } else if o == 0xC3 {
        Some(Instruction::Jump)
    } else if 0xC0 <= o < 0xE0 && o % 8 == 2 {
        Some(Instruction::JumpIf(cond_field((o / 8) % 4)))
    } else if o == 0xCD {
        Some(Instruction::Call)
    } else if 0xC0 <= o < 0xE0 && o % 8 == 4 {
        Some(Instruction::CallIf(cond_field((o / 8) % 4)))
    } else if o == 0xC9 {
        Some(Instruction::Return)
    } else if 0xC0 <= o < 0xE0 && o % 8 == 0 {
        Some(Instruction::ReturnIf(cond_field((o / 8) % 4)))
    } else if o >= 0xC0 && o % 16 == 0x1 {
        Some(Instruction::Pop(stack_pair_field(o / 16 - 12)))
    } else if o >= 0xC0 && o % 16 == 0x5 {
        Some(Instruction::Push(stack_pair_field(o / 16 - 12)))
    } else if o == 0xCB {
        Some(Instruction::Prefix)
    } else {
        None
    }
}

/// The table behind the prefix byte, which has an entry for every byte.
pub open spec fn prefixed_table(opcode: u8) -> PrefixedInstruction {
    let o = opcode as int;
    if reg_field(o % 8) is Some {
        let b = ((o / 8) % 8) as u8;
        let r = reg_field(o % 8)->0;
        if o < 0x40 {
            PrefixedInstruction::Shift(shift_field(o / 8), r)
        } else if o < 0x80 {
            PrefixedInstruction::Test(b, r)
        } else if o < 0xC0 {
            PrefixedInstruction::Reset(b, r)
        } else {
            PrefixedInstruction::Raise(b, r)
        }
    } else {
        let b = ((o / 8) % 8) as u8;
        if o < 0x40 {
            PrefixedInstruction::ShiftIndirect(shift_field(o / 8))
        } else if o < 0x80 {
            PrefixedInstruction::TestIndirect(b)
        } else if o < 0xC0 {
            PrefixedInstruction::ResetIndirect(b)
        } else {
            PrefixedInstruction::RaiseIndirect(b)
        }
    }
}

fn reg_from_field(code: u8) -> (r: Option<Reg>)
    ensures
        r == reg_field(code as int),
{
    match code {
        0 => Some(Reg::B),
        1 => Some(Reg::C),
        2 => Some(Reg::D),
        3 => Some(Reg::E),
        4 => Some(Reg::H),
        5 => Some(Reg::L),
        7 => Some(Reg::A),
        _ => None,
    }
}

fn pair_from_field(code: u8) -> (r: Pair)
    ensures
        r == pair_field(code as int),
{
    match code {
        0 => Pair::BC,
        1 => Pair::DE,
        2 => Pair::HL,
        _ => Pair::SP,
    }
}

fn stack_pair_from_field(code: u8) -> (r: StackPair)
    ensures
        r == stack_pair_field(code as int),
{
    match code {
        0 => StackPair::BC,
        1 => StackPair::DE,
        2 => StackPair::HL,
        _ => StackPair::AF,
    }
}

fn shift_from_field(code: u8) -> (r: ShiftOp)
    ensures
        r == shift_field(code as int),
{
    match code {
        0 => ShiftOp::Rlc,
        1 => ShiftOp::Rrc,
        2 => ShiftOp::Rl,
        3 => ShiftOp::Rr,
        4 => ShiftOp::Sla,
        5 => ShiftOp::Sra,
        6 => ShiftOp::Swap,
        _ => ShiftOp::Srl,
    }
}

fn cond_from_field(code: u8) -> (r: Cond)
    ensures
        r == cond_field(code as int),
{
    match code {
        0 => Cond::NotZero,
        1 => Cond::Zero,
        2 => Cond::NotCarry,
        _ => Cond::Carry,
    }
}

fn alu_from_field(code: u8) -> (r: AluOp)
    ensures
        r == alu_field(code as int),
{
    match code {
        0 => AluOp::Add,
        1 => AluOp::Adc,
        2 => AluOp::Sub,
        3 => AluOp::Sbc,
        4 => AluOp::And,
        5 => AluOp::Xor,
        6 => AluOp::Or,
        _ => AluOp::Cp,
    }
}

#[verifier::spinoff_prover]
fn decode_block0(opcode: u8) -> (r: Option<Instruction>)
    requires
        opcode < 0x40,
    ensures
        r == opcode_table(opcode),
{
    let y = (opcode / 8) % 8;
    let z = opcode % 8;
    let p = y / 2;
    let q = y % 2;
    match z {
        0 => if y == 0 {
            Some(Instruction::Nop)
        } else if y == 1 {
            Some(Instruction::StoreSp)
        } else if y == 3 {
            Some(Instruction::JumpRelative)
        } else if y >= 4 {
            Some(Instruction::JumpRelativeIf(cond_from_field(y - 4)))
        } else {
            None
        },
        1 => if q == 0 {
            Some(Instruction::LoadPairImmediate(pair_from_field(p)))
        } else {
            Some(Instruction::AddHl(pair_from_field(p)))
        },
        2 => if p >= 2 {
            let step = if p == 2 {
                HlStep::Increment
            } else {
                HlStep::Decrement
            };
            if q == 0 {
                Some(Instruction::StoreAHl(step))
            } else {
                Some(Instruction::LoadAHl(step))
            }
        } else if q == 0 {
            Some(Instruction::StoreAIndirect(pair_from_field(p)))
        } else {
            Some(Instruction::LoadAIndirect(pair_from_field(p)))
        },
        3 => if q == 0 {
            Some(Instruction::IncPair(pair_from_field(p)))
        } else {
            Some(Instruction::DecPair(pair_from_field(p)))
        },
        4 => match reg_from_field(y) {
            Some(r) => Some(Instruction::IncReg(r)),
            None => Some(Instruction::IncIndirect),
        },
        5 => match reg_from_field(y) {
            Some(r) => Some(Instruction::DecReg(r)),
            None => Some(Instruction::DecIndirect),
        },
        6 => match reg_from_field(y) {
            Some(r) => Some(Instruction::LoadRegImmediate(r)),
            None => Some(Instruction::StoreImmediateIndirect),
        },
        _ => if y < 4 {
            Some(Instruction::RotateA(shift_from_field(y)))
        } else if y == 5 {
            Some(Instruction::Complement)
        } else if y == 6 {
            Some(Instruction::SetCarry)
        } else if y == 7 {
            Some(Instruction::FlipCarry)
        } else {
            Some(Instruction::DecimalAdjust)
        },
    }
}

#[verifier::spinoff_prover]
fn decode_block1(opcode: u8) -> (r: Option<Instruction>)
    requires
        0x40 <= opcode < 0x80,
    ensures
        r == opcode_table(opcode),
{
    let y = (opcode / 8) % 8;
    let z = opcode % 8;
    match (reg_from_field(y), reg_from_field(z)) {
        (Some(dst), Some(src)) => Some(Instruction::LoadReg(dst, src)),
        (Some(dst), None) => Some(Instruction::LoadRegIndirect(dst)),
        (None, Some(src)) => Some(Instruction::StoreRegIndirect(src)),
        (None, None) => None,
    }
}

#[verifier::spinoff_prover]
fn decode_block2(opcode: u8) -> (r: Option<Instruction>)
    requires
        0x80 <= opcode < 0xC0,
    ensures
        r == opcode_table(opcode),
{
    let y = (opcode / 8) % 8;
    let z = opcode % 8;
    match reg_from_field(z) {
        Some(r) => Some(Instruction::Alu(alu_from_field(y), r)),
        None => Some(Instruction::AluIndirect(alu_from_field(y))),
    }
}

#[verifier::spinoff_prover]
fn decode_block3(opcode: u8) -> (r: Option<Instruction>)
    requires
        opcode >= 0xC0,
    ensures
        r == opcode_table(opcode),
{
    let y = (opcode / 8) % 8;
    let z = opcode % 8;
    let p = y / 2;
    let q = y % 2;
    match z {
        0 => if y < 4 {
            Some(Instruction::ReturnIf(cond_from_field(y)))
        } else if y == 4 {
            Some(Instruction::StoreHigh)
        } else if y == 5 {
            Some(Instruction::AddSpOffset)
        } else if y == 6 {
            Some(Instruction::LoadHigh)
        } else {
            Some(Instruction::LoadHlSpOffset)
        },
        1 => if q == 0 {
            Some(Instruction::Pop(stack_pair_from_field(p)))
        } else if p == 0 {
            Some(Instruction::Return)
        } else if p == 2 {
            Some(Instruction::JumpHl)
        } else if p == 3 {
            Some(Instruction::LoadSpHl)
        } else {
            None
        },
        2 => if y < 4 {
            Some(Instruction::JumpIf(cond_from_field(y)))
        } else if y == 4 {
            Some(Instruction::StoreHighC)
        } else if y == 5 {
            Some(Instruction::StoreAbsolute)
        } else if y == 6 {
            Some(Instruction::LoadHighC)
        } else {
            Some(Instruction::LoadAbsolute)
        },
        3 => if y == 0 {
            Some(Instruction::Jump)
        } else if y == 1 {
            Some(Instruction::Prefix)
        } else {
            None
        },
        4 => if y < 4 {
            Some(Instruction::CallIf(cond_from_field(y)))
        } else {
            None
        },
        5 => if q == 0 {
            Some(Instruction::Push(stack_pair_from_field(p)))
        } else if p == 0 {
            Some(Instruction::Call)
        } else {
            None
        },
        6 => Some(Instruction::AluImmediate(alu_from_field(y))),
        7 => Some(Instruction::Restart(opcode - 0xC7)),
        _ => None,
    }
}

/// Decodes a primary opcode from its fields: `x` (bits 7-6), `y` (bits 5-3,
/// split into `p` and `q`) and `z` (bits 2-0).
pub fn decode(opcode: u8) -> (r: Option<Instruction>)
    ensures
        r == opcode_table(opcode),
{
    let x = opcode / 64;
    if x == 0 {
        decode_block0(opcode)
    } else if x == 1 {
        decode_block1(opcode)
    } else if x == 2 {
        decode_block2(opcode)
    } else {
        decode_block3(opcode)
    }
}

/// Decodes the opcode that follows the prefix byte.
pub fn decode_prefixed(opcode: u8) -> (r: PrefixedInstruction)
    ensures
        r == prefixed_table(opcode),
{
    let x = opcode / 64;
    let y = (opcode / 8) % 8;
    match reg_from_field(opcode % 8) {
        Some(r) => if x == 0 {
            PrefixedInstruction::Shift(shift_from_field(y), r)
        } else if x == 1 {
            PrefixedInstruction::Test(y, r)
        } else if x == 2 {
            PrefixedInstruction::Reset(y, r)
        } else {
            PrefixedInstruction::Raise(y, r)
        },
        None => if x == 0 {
            PrefixedInstruction::ShiftIndirect(shift_from_field(y))
        } else if x == 1 {
            PrefixedInstruction::TestIndirect(y)
        } else if x == 2 {
            PrefixedInstruction::ResetIndirect(y)
        } else {
            PrefixedInstruction::RaiseIndirect(y)
        },
    }
}

} // verus!
