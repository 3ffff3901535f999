use vstd::prelude::*;

use crate::flags::{flag_of, pack_flags, Flag, FlagsRegister};
use crate::instruction::{
    decode, decode_prefixed, opcode_table, prefixed_table, AluOp, Instruction, PrefixedInstruction,
    Cond, HlStep, ShiftOp, StackPair,
};
use crate::memory::Memory;
use crate::registers::{
    join, Pair, Reg, high_byte, low_byte, pair_of, pair_value, reg_of, with_pair, with_reg, RegisterState, Registers,
};

verus! {

/// The fault `step` reports for an opcode that the primary table does not
/// hold (the table behind the prefix byte is complete).
#[derive(Clone, Copy, Debug, PartialEq, Eq, Structural)]
pub struct UnknownInstruction {
    /// The opcode without a table entry.
    pub opcode: u8,
    /// The address it was read from.
    pub pc: u16,
}

/// A value taken modulo 2^16.
pub open spec fn wrap16(x: int) -> u16 {
    (x % 0x10000) as u16
}

/// A value taken modulo 2^8.
pub open spec fn wrap8(x: int) -> u8 {
    (x % 0x100) as u8
}

/// The state with `pc` moved forward by `n` bytes.
pub open spec fn advance(s: RegisterState, n: int) -> RegisterState {
    RegisterState { pc: wrap16(s.pc + n), ..s }
}

/// The 16-bit immediate at `pc`, lower byte first.
pub open spec fn immediate16(s: RegisterState, mem: Seq<u8>) -> u16 {
    pair_value(mem[wrap16(s.pc + 1) as int], mem[s.pc as int])
}

/// Result and flags byte of an accumulator operation on `a` and `v`; the
/// carry and half-carry come from the unwrapped sum or difference.
pub open spec fn alu_spec(op: AluOp, a: u8, v: u8, carry: bool) -> (u8, u8) {
    let c: int = if carry { 1 } else { 0 };
    let x = a as int;
    let y = v as int;
    match op {
        AluOp::Add => (
            wrap8(x + y),
            pack_flags(wrap8(x + y) == 0, false, x % 16 + y % 16 > 15, x + y > 255),
        ),
        AluOp::Adc => (
            wrap8(x + y + c),
            pack_flags(wrap8(x + y + c) == 0, false, x % 16 + y % 16 + c > 15, x + y + c > 255),
        ),
        AluOp::Sub => (wrap8(x - y), pack_flags(x == y, true, x % 16 < y % 16, x < y)),
        AluOp::Sbc => (
            wrap8(x - y - c),
            pack_flags(wrap8(x - y - c) == 0, true, x % 16 < y % 16 + c, x < y + c),
        ),
        AluOp::And => (a & v, pack_flags(a & v == 0, false, true, false)),
        AluOp::Xor => (a ^ v, pack_flags(a ^ v == 0, false, false, false)),
        AluOp::Or => (a | v, pack_flags(a | v == 0, false, false, false)),
        AluOp::Cp => (a, pack_flags(x == y, true, x % 16 < y % 16, x < y)),
    }
}

/// Result and flags byte of `inc` on `v`; C is kept from `f`.
pub open spec fn inc_spec(v: u8, f: u8) -> (u8, u8) {
    let res = wrap8(v + 1);
    (res, pack_flags(res == 0, false, v % 16 == 15, flag_of(f, Flag::Carry)))
}

/// Result and flags byte of `dec` on `v`; C is kept from `f`.
pub open spec fn dec_spec(v: u8, f: u8) -> (u8, u8) {
    let res = wrap8(v - 1);
    (res, pack_flags(res == 0, true, v % 16 == 0, flag_of(f, Flag::Carry)))
}

/// Result and flags byte of `daa` on `a` with flags `f`: the correction that
/// makes `a` two packed decimal digits again after the last addition (N
/// clear) or subtraction (N set).
pub open spec fn daa_spec(a: u8, f: u8) -> (u8, u8) {
    let x = a as int;
    let n = flag_of(f, Flag::Subtract);
    let h = flag_of(f, Flag::HalfCarry);
    let c = flag_of(f, Flag::Carry);
    let high = if n { c } else { c || x > 0x99 };
    let low = if n { h } else { h || x % 16 > 9 };
    let adjust = (if high { 0x60int } else { 0 }) + (if low { 0x06int } else { 0 });
    let r = if n { wrap8(x - adjust) } else { wrap8(x + adjust) };
    (r, pack_flags(r == 0, n, false, high))
}

/// `sp` moved by a signed offset byte, and the flags byte that `add sp, e8`
/// and `ld hl, sp+e8` set: H and C from the unsigned sum of the low nibble
/// and low byte.
pub open spec fn sp_offset_spec(sp: u16, e: u8) -> (u16, u8) {
    let x = sp as int;
    let y = e as int;
    (
        wrap16(x + signed_offset(e)),
        pack_flags(false, false, x % 16 + y % 16 > 15, x % 256 + y > 255),
    )
}

/// Result of a rotate, shift or swap of `v`, and the bit shifted out.
pub open spec fn shift_result(op: ShiftOp, v: u8, carry: bool) -> (u8, bool) {
    let x = v as int;
    let c: int = if carry { 1 } else { 0 };
    let (r, out): (int, bool) = match op {
        ShiftOp::Rlc => ((x * 2) % 256 + x / 128, x >= 128),
        ShiftOp::Rrc => (x / 2 + (x % 2) * 128, x % 2 == 1),
        ShiftOp::Rl => ((x * 2) % 256 + c, x >= 128),
        ShiftOp::Rr => (x / 2 + c * 128, x % 2 == 1),
        ShiftOp::Sla => ((x * 2) % 256, x >= 128),
        ShiftOp::Sra => (x / 2 + (x / 128) * 128, x % 2 == 1),
        ShiftOp::Swap => ((x % 16) * 16 + x / 16, false),
        ShiftOp::Srl => (x / 2, x % 2 == 1),
    };
    (r as u8, out)
}

/// Result and flags byte of a prefixed rotate, shift or swap: Z from the
/// result, C from the bit shifted out.
pub open spec fn shift_spec(op: ShiftOp, v: u8, carry: bool) -> (u8, u8) {
    let (r, out) = shift_result(op, v, carry);
    (r, pack_flags(r == 0, false, false, out))
}

/// Whether bit `b` of `v` is set.
pub open spec fn bit_set(v: u8, b: u8) -> bool {
    (v >> b) & 1 == 1
}

/// The state with a 16-bit register moved by `delta`, modulo 2^16.
pub open spec fn pair_moved(s: RegisterState, p: Pair, delta: int) -> RegisterState {
    with_pair(s, p, wrap16(pair_of(s, p) + delta))
}

/// How far `(hl+)` and `(hl-)` move `hl`.
pub open spec fn hl_delta(step: HlStep) -> int {
    match step {
        HlStep::Increment => 1,
        HlStep::Decrement => -1,
    }
}

/// The address `offset` bytes into the page at 0xFF00.
pub open spec fn high_address(offset: u8) -> u16 {
    (0xFF00 + offset) as u16
}

/// Whether the flags byte `f` meets a condition.
pub open spec fn cond_holds(f: u8, cc: Cond) -> bool {
    match cc {
        Cond::NotZero => !flag_of(f, Flag::Zero),
        Cond::Zero => flag_of(f, Flag::Zero),
        Cond::NotCarry => !flag_of(f, Flag::Carry),
        Cond::Carry => flag_of(f, Flag::Carry),
    }
}

/// A relative jump's offset byte read as a two's-complement number.
pub open spec fn signed_offset(e: u8) -> int {
    if e >= 128 {
        e - 256
    } else {
        e as int
    }
}

/// The contents after pushing `v` on a stack whose pointer is `sp`: upper
/// byte at `sp - 1`, lower byte at `sp - 2`.
pub open spec fn pushed<M: Memory>(mem: Seq<u8>, sp: u16, v: u16) -> Seq<u8> {
    M::after_write(M::after_write(mem, wrap16(sp - 1), high_byte(v)), wrap16(sp - 2), low_byte(v))
}

/// The 16-bit value on top of a stack whose pointer is `sp`.
pub open spec fn popped(mem: Seq<u8>, sp: u16) -> u16 {
    pair_value(mem[wrap16(sp + 1) as int], mem[sp as int])
}

/// The state after a call to `target` that pushes the address `ret`.
pub open spec fn called(s: RegisterState, target: u16) -> RegisterState {
    RegisterState { pc: target, sp: wrap16(s.sp - 2), ..s }
}

/// The 16-bit value that `push` stores for a pair.
pub open spec fn stack_value(s: RegisterState, q: StackPair) -> u16 {
    match q {
        StackPair::BC => pair_of(s, crate::registers::Pair::BC),
        StackPair::DE => pair_of(s, crate::registers::Pair::DE),
        StackPair::HL => pair_of(s, crate::registers::Pair::HL),
        StackPair::AF => pair_value(s.a, s.f),
    }
}

/// The state after `pop` loads `hi` and `lo` into a pair; the reserved nibble
/// of `f` stays clear.
pub open spec fn with_stack_pair(s: RegisterState, q: StackPair, hi: u8, lo: u8) -> RegisterState {
    match q {
        StackPair::BC => RegisterState { b: hi, c: lo, ..s },
        StackPair::DE => RegisterState { d: hi, e: lo, ..s },
        StackPair::HL => RegisterState { h: hi, l: lo, ..s },
        StackPair::AF => RegisterState { a: hi, f: lo & 0xF0, ..s },
    }
}

/// The effect of a prefixed instruction on registers and memory contents.
pub open spec fn execute_prefixed_spec<M: Memory>(
    i: PrefixedInstruction,
    s: RegisterState,
    mem: Seq<u8>,
) -> (RegisterState, Seq<u8>) {
    let carry = flag_of(s.f, Flag::Carry);
    let hl = pair_of(s, Pair::HL);
    let m = mem[hl as int];
    match i {
        PrefixedInstruction::Shift(op, r) => {
            let (v, f) = shift_spec(op, reg_of(s, r), carry);
            (RegisterState { f, ..with_reg(s, r, v) }, mem)
        },
        PrefixedInstruction::Test(b, r) => (
            RegisterState { f: pack_flags(!bit_set(reg_of(s, r), b), false, true, carry), ..s },
            mem,
        ),
        PrefixedInstruction::Reset(b, r) => (with_reg(s, r, reg_of(s, r) & !(1u8 << b)), mem),
        PrefixedInstruction::Raise(b, r) => (with_reg(s, r, reg_of(s, r) | (1u8 << b)), mem),
        PrefixedInstruction::ShiftIndirect(op) => {
            let (v, f) = shift_spec(op, m, carry);
            (RegisterState { f, ..s }, M::after_write(mem, hl, v))
        },
        PrefixedInstruction::TestIndirect(b) => (
            RegisterState { f: pack_flags(!bit_set(m, b), false, true, carry), ..s },
            mem,
        ),
        PrefixedInstruction::ResetIndirect(b) => (s, M::after_write(mem, hl, m & !(1u8 << b))),
        PrefixedInstruction::RaiseIndirect(b) => (s, M::after_write(mem, hl, m | (1u8 << b))),
    }
}

/// The effect of a primary instruction whose opcode has been fetched (`s.pc`
/// is the address after it): registers, memory contents and outcome.
pub open spec fn execute_spec<M: Memory>(i: Instruction, s: RegisterState, mem: Seq<u8>) -> (
    RegisterState,
    Seq<u8>,
    Result<(), UnknownInstruction>,
) {
    match i {
        Instruction::Nop => (s, mem, Ok(())),
        Instruction::LoadPairImmediate(p) => (
            with_pair(advance(s, 2), p, immediate16(s, mem)),
            mem,
            Ok(()),
        ),
        Instruction::StoreAIndirect(p) => (s, M::after_write(mem, pair_of(s, p), s.a), Ok(())),
        Instruction::LoadAIndirect(p) => (
            RegisterState { a: mem[pair_of(s, p) as int], ..s },
            mem,
            Ok(()),
        ),
        Instruction::IncPair(p) => (pair_moved(s, p, 1), mem, Ok(())),
        Instruction::DecPair(p) => (pair_moved(s, p, -1), mem, Ok(())),
        Instruction::IncReg(r) => {
            let (v, f) = inc_spec(reg_of(s, r), s.f);
            (RegisterState { f, ..with_reg(s, r, v) }, mem, Ok(()))
        },
        Instruction::DecReg(r) => {
            let (v, f) = dec_spec(reg_of(s, r), s.f);
            (RegisterState { f, ..with_reg(s, r, v) }, mem, Ok(()))
        },
        Instruction::LoadRegImmediate(r) => (
            with_reg(advance(s, 1), r, mem[s.pc as int]),
            mem,
            Ok(()),
        ),
        Instruction::LoadReg(dst, src) => (with_reg(s, dst, reg_of(s, src)), mem, Ok(())),
        Instruction::LoadRegIndirect(r) => (
            with_reg(s, r, mem[pair_of(s, Pair::HL) as int]),
            mem,
            Ok(()),
        ),
        Instruction::StoreRegIndirect(r) => (
            s,
            M::after_write(mem, pair_of(s, Pair::HL), reg_of(s, r)),
            Ok(()),
        ),
        Instruction::StoreImmediateIndirect => (
            advance(s, 1),
            M::after_write(mem, pair_of(s, Pair::HL), mem[s.pc as int]),
            Ok(()),
        ),
        Instruction::IncIndirect => {
            let (v, f) = inc_spec(mem[pair_of(s, Pair::HL) as int], s.f);
            (RegisterState { f, ..s }, M::after_write(mem, pair_of(s, Pair::HL), v), Ok(()))
        },
        Instruction::DecIndirect => {
            let (v, f) = dec_spec(mem[pair_of(s, Pair::HL) as int], s.f);
            (RegisterState { f, ..s }, M::after_write(mem, pair_of(s, Pair::HL), v), Ok(()))
        },
        Instruction::StoreAHl(step) => (
            pair_moved(s, Pair::HL, hl_delta(step)),
            M::after_write(mem, pair_of(s, Pair::HL), s.a),
            Ok(()),
        ),
        Instruction::LoadAHl(step) => (
            RegisterState {
                a: mem[pair_of(s, Pair::HL) as int],
                ..pair_moved(s, Pair::HL, hl_delta(step))
            },
            mem,
            Ok(()),
        ),
        Instruction::StoreHigh => (
            advance(s, 1),
            M::after_write(mem, high_address(mem[s.pc as int]), s.a),
            Ok(()),
        ),
        Instruction::LoadHigh => (
            RegisterState { a: mem[high_address(mem[s.pc as int]) as int], ..advance(s, 1) },
            mem,
            Ok(()),
        ),
        Instruction::StoreHighC => (s, M::after_write(mem, high_address(s.c), s.a), Ok(())),
        Instruction::LoadHighC => (
            RegisterState { a: mem[high_address(s.c) as int], ..s },
            mem,
            Ok(()),
        ),
        Instruction::StoreAbsolute => (
            advance(s, 2),
            M::after_write(mem, immediate16(s, mem), s.a),
            Ok(()),
        ),
        Instruction::LoadAbsolute => (
            RegisterState { a: mem[immediate16(s, mem) as int], ..advance(s, 2) },
            mem,
            Ok(()),
        ),
        Instruction::Alu(op, r) => {
            let (a, f) = alu_spec(op, s.a, reg_of(s, r), flag_of(s.f, Flag::Carry));
            (RegisterState { a, f, ..s }, mem, Ok(()))
        },
        Instruction::AluIndirect(op) => {
            let (a, f) = alu_spec(
                op,
                s.a,
                mem[pair_of(s, Pair::HL) as int],
                flag_of(s.f, Flag::Carry),
            );
            (RegisterState { a, f, ..s }, mem, Ok(()))
        },
        Instruction::AluImmediate(op) => {
            let (a, f) = alu_spec(op, s.a, mem[s.pc as int], flag_of(s.f, Flag::Carry));
            (RegisterState { a, f, ..advance(s, 1) }, mem, Ok(()))
        },
        Instruction::StoreSp => {
            let target = immediate16(s, mem);
            (
                advance(s, 2),
                M::after_write(
                    M::after_write(mem, target, low_byte(s.sp)),
                    wrap16(target + 1),
                    high_byte(s.sp),
                ),
                Ok(()),
            )
        },
        Instruction::LoadSpHl => (RegisterState { sp: pair_of(s, Pair::HL), ..s }, mem, Ok(())),
        Instruction::DecimalAdjust => {
            let (a, f) = daa_spec(s.a, s.f);
            (RegisterState { a, f, ..s }, mem, Ok(()))
        },
        Instruction::AddSpOffset => {
            let (sp, f) = sp_offset_spec(s.sp, mem[s.pc as int]);
            (RegisterState { sp, f, ..advance(s, 1) }, mem, Ok(()))
        },
        Instruction::LoadHlSpOffset => {
            let (v, f) = sp_offset_spec(s.sp, mem[s.pc as int]);
            (with_pair(RegisterState { f, ..advance(s, 1) }, Pair::HL, v), mem, Ok(()))
        },
        Instruction::RotateA(op) => {
            let (v, out) = shift_result(op, s.a, flag_of(s.f, Flag::Carry));
            (RegisterState { a: v, f: pack_flags(false, false, false, out), ..s }, mem, Ok(()))
        },
        Instruction::Complement => (
            RegisterState {
                a: !s.a,
                f: pack_flags(flag_of(s.f, Flag::Zero), true, true, flag_of(s.f, Flag::Carry)),
                ..s
            },
            mem,
            Ok(()),
        ),
        Instruction::SetCarry => (
            RegisterState { f: pack_flags(flag_of(s.f, Flag::Zero), false, false, true), ..s },
            mem,
            Ok(()),
        ),
        Instruction::FlipCarry => (
            RegisterState {
                f: pack_flags(flag_of(s.f, Flag::Zero), false, false, !flag_of(s.f, Flag::Carry)),
                ..s
            },
            mem,
            Ok(()),
        ),
        Instruction::JumpHl => (RegisterState { pc: pair_of(s, Pair::HL), ..s }, mem, Ok(())),
        Instruction::Restart(n) => (called(s, n as u16), pushed::<M>(mem, s.sp, s.pc), Ok(())),
        Instruction::AddHl(p) => {
            let hl = pair_of(s, Pair::HL) as int;
            let v = pair_of(s, p) as int;
            (
                RegisterState {
                    f: pack_flags(
                        flag_of(s.f, Flag::Zero),
                        false,
                        hl % 4096 + v % 4096 > 4095,
                        hl + v > 65535,
                    ),
                    ..with_pair(s, Pair::HL, wrap16(hl + v))
                },
                mem,
                Ok(()),
            )
        },
        Instruction::Jump => (RegisterState { pc: immediate16(s, mem), ..s }, mem, Ok(())),
        Instruction::JumpIf(cc) => if cond_holds(s.f, cc) {
            (RegisterState { pc: immediate16(s, mem), ..s }, mem, Ok(()))
        } else {
            (advance(s, 2), mem, Ok(()))
        },
        Instruction::JumpRelative => (
            RegisterState { pc: wrap16(wrap16(s.pc + 1) + signed_offset(mem[s.pc as int])), ..s },
            mem,
            Ok(()),
        ),
        Instruction::JumpRelativeIf(cc) => if cond_holds(s.f, cc) {
            (
                RegisterState {
                    pc: wrap16(wrap16(s.pc + 1) + signed_offset(mem[s.pc as int])),
                    ..s
                },
                mem,
                Ok(()),
            )
        } else {
            (advance(s, 1), mem, Ok(()))
        },
        Instruction::Call => (
            called(s, immediate16(s, mem)),
            pushed::<M>(mem, s.sp, wrap16(s.pc + 2)),
            Ok(()),
        ),
        Instruction::CallIf(cc) => if cond_holds(s.f, cc) {
            (called(s, immediate16(s, mem)), pushed::<M>(mem, s.sp, wrap16(s.pc + 2)), Ok(()))
        } else {
            (advance(s, 2), mem, Ok(()))
        },
        Instruction::Return => (
            RegisterState { pc: popped(mem, s.sp), sp: wrap16(s.sp + 2), ..s },
            mem,
            Ok(()),
        ),
        Instruction::ReturnIf(cc) => if cond_holds(s.f, cc) {
            (RegisterState { pc: popped(mem, s.sp), sp: wrap16(s.sp + 2), ..s }, mem, Ok(()))
        } else {
            (s, mem, Ok(()))
        },
        Instruction::Push(q) => (
            RegisterState { sp: wrap16(s.sp - 2), ..s },
            pushed::<M>(mem, s.sp, stack_value(s, q)),
            Ok(()),
        ),
        Instruction::Pop(q) => (
            with_stack_pair(
                RegisterState { sp: wrap16(s.sp + 2), ..s },
                q,
                mem[wrap16(s.sp + 1) as int],
                mem[s.sp as int],
            ),
            mem,
            Ok(()),
        ),
        Instruction::Prefix => {
            let (t, after) = execute_prefixed_spec::<M>(
                prefixed_table(mem[s.pc as int]),
                advance(s, 1),
                mem,
            );
            (t, after, Ok(()))
        },
    }
}

/// One fetch-decode-execute cycle: registers, memory contents and outcome
/// after the instruction at `s.pc`. An opcode without a table entry leaves
/// `pc` just past it and changes nothing else.
pub open spec fn step_spec<M: Memory>(s: RegisterState, mem: Seq<u8>) -> (
    RegisterState,
    Seq<u8>,
    Result<(), UnknownInstruction>,
) {
    let opcode = mem[s.pc as int];
    match opcode_table(opcode) {
        Some(i) => execute_spec::<M>(i, advance(s, 1), mem),
        None => (
            advance(s, 1),
            mem,
            Err(UnknownInstruction { opcode, pc: s.pc }),
        ),
    }
}

fn wrapping_inc(x: u16) -> (r: u16)
    ensures
        r == wrap16(x + 1),
{
    if x == 0xFFFF {
        0
    } else {
        x + 1
    }
}

fn wrapping_dec(x: u16) -> (r: u16)
    ensures
        r == wrap16(x - 1),
{
    if x == 0 {
        0xFFFF
    } else {
        x - 1
    }
}

/// `hl` after a `(hl+)` or `(hl-)` access.
fn hl_moved(hl: u16, step: HlStep) -> (r: u16)
    ensures
        r == wrap16(hl + hl_delta(step)),
{
    match step {
        HlStep::Increment => wrapping_inc(hl),
        HlStep::Decrement => wrapping_dec(hl),
    }
}

/// The address `e` bytes (a two's-complement offset) from `pc`.
fn relative_target(pc: u16, e: u8) -> (r: u16)
    ensures
        r == wrap16(pc + signed_offset(e)),
{
    if e < 128 {
        ((pc as u32 + e as u32) % 65536) as u16
    } else {
        ((pc as u32 + 65536 - (256 - e as u32)) % 65536) as u16
    }
}

/// Result and flags of `inc` (`up`) or `dec` on `v`, keeping C from `f`.
fn inc_dec(v: u8, f: &FlagsRegister, up: bool) -> (r: (u8, FlagsRegister))
    ensures
        (r.0, r.1@) == if up {
            inc_spec(v, f@)
        } else {
            dec_spec(v, f@)
        },
{
    let c = f.carry();
    if up {
        let res: u8 = if v == 0xFF {
            0
        } else {
            v + 1
        };
        (res, FlagsRegister::from_flags(res == 0, false, v % 16 == 15, c))
    } else {
        let res: u8 = if v == 0 {
            0xFF
        } else {
            v - 1
        };
        (res, FlagsRegister::from_flags(res == 0, true, v % 16 == 0, c))
    }
}

/// Result and flags of `daa`.
#[verifier::spinoff_prover]
fn decimal_adjust(a: u8, f: &FlagsRegister) -> (r: (u8, FlagsRegister))
    ensures
        (r.0, r.1@) == daa_spec(a, f@),
{
    let n = f.subtract();
    let h = f.half_carry();
    let c = f.carry();
    let high = if n {
        c
    } else {
        c || a > 0x99
    };
    let low = if n {
        h
    } else {
        h || a % 16 > 9
    };
    let adjust: u8 = (if high {
        0x60u8
    } else {
        0
    }) + (if low {
        0x06u8
    } else {
        0
    });
    let r = if n {
        ((a as u16 + 256 - adjust as u16) % 256) as u8
    } else {
        ((a as u16 + adjust as u16) % 256) as u8
    };
    (r, FlagsRegister::from_flags(r == 0, n, false, high))
}

/// `sp` moved by a signed offset byte, and the flags that go with it.
#[verifier::spinoff_prover]
fn sp_offset(sp: u16, e: u8) -> (r: (u16, FlagsRegister))
    ensures
        (r.0, r.1@) == sp_offset_spec(sp, e),
{
    let target = relative_target(sp, e);
    let half = sp % 16 + (e % 16) as u16 > 15;
    let carry = sp % 256 + e as u16 > 255;
    (target, FlagsRegister::from_flags(false, false, half, carry))
}

/// Result of a rotate, shift or swap, and the bit shifted out.
#[verifier::spinoff_prover]
fn shift(op: ShiftOp, v: u8, carry: bool) -> (r: (u8, bool))
    ensures
        r == shift_result(op, v, carry),
{
    let x = v as u16;
    let c: u16 = if carry {
        1
    } else {
        0
    };
    let (res, out): (u16, bool) = match op {
        ShiftOp::Rlc => ((x * 2) % 256 + x / 128, x >= 128),
        ShiftOp::Rrc => (x / 2 + (x % 2) * 128, x % 2 == 1),
        ShiftOp::Rl => ((x * 2) % 256 + c, x >= 128),
        ShiftOp::Rr => (x / 2 + c * 128, x % 2 == 1),
        ShiftOp::Sla => ((x * 2) % 256, x >= 128),
        ShiftOp::Sra => (x / 2 + (x / 128) * 128, x % 2 == 1),
        ShiftOp::Swap => ((x % 16) * 16 + x / 16, false),
        ShiftOp::Srl => (x / 2, x % 2 == 1),
    };
    (res as u8, out)
}

#[verifier::spinoff_prover]
fn alu_add(a: u8, v: u8, carry: bool) -> (r: (u8, FlagsRegister))
    ensures
        r.0 == alu_spec(AluOp::Adc, a, v, carry).0,
        r.1@ == alu_spec(AluOp::Adc, a, v, carry).1,
{
    let c: u8 = if carry {
        1
    } else {
        0
    };
    let sum: u16 = a as u16 + v as u16 + c as u16;
    let res = (sum % 256) as u8;
    (res, FlagsRegister::from_flags(res == 0, false, a % 16 + v % 16 + c > 15, sum > 255))
}

#[verifier::spinoff_prover]
fn alu_sub(a: u8, v: u8, carry: bool) -> (r: (u8, FlagsRegister))
    ensures
        r.0 == alu_spec(AluOp::Sbc, a, v, carry).0,
        r.1@ == alu_spec(AluOp::Sbc, a, v, carry).1,
{
    let c: u8 = if carry {
        1
    } else {
        0
    };
    let res = ((a as u16 + 256 - v as u16 - c as u16) % 256) as u8;
    (
        res,
        FlagsRegister::from_flags(
            res == 0,
            true,
            a % 16 < v % 16 + c,
            (a as u16) < v as u16 + c as u16,
        ),
    )
}

/// Result and flags of an accumulator operation.
fn alu(op: AluOp, a: u8, v: u8, carry: bool) -> (r: (u8, FlagsRegister))
    ensures
        r.0 == alu_spec(op, a, v, carry).0,
        r.1@ == alu_spec(op, a, v, carry).1,
{
    match op {
        AluOp::Add => alu_add(a, v, false),
        AluOp::Adc => alu_add(a, v, carry),
        AluOp::Sub => alu_sub(a, v, false),
        AluOp::Sbc => alu_sub(a, v, carry),
        AluOp::And => (a & v, FlagsRegister::from_flags(a & v == 0, false, true, false)),
        AluOp::Xor => (a ^ v, FlagsRegister::from_flags(a ^ v == 0, false, false, false)),
        AluOp::Or => (a | v, FlagsRegister::from_flags(a | v == 0, false, false, false)),
        AluOp::Cp => {
            let (_, f) = alu_sub(a, v, false);
            (a, f)
        },
    }
}

/// The processor: its register file, flags included.
#[derive(Debug)]
pub struct Cpu {
    pub registers: Registers,
}

impl Cpu {
    /// A processor with every register zero and every flag cleared.
    pub fn new() -> (r: Self)
        ensures
            r.registers@ == (RegisterState {
                a: 0,
                b: 0,
                c: 0,
                d: 0,
                e: 0,
                h: 0,
                l: 0,
                f: 0,
                pc: 0,
                sp: 0,
            }),
    {
        Cpu { registers: Registers::new() }
    }

    /// Pushes a 16-bit value: upper byte at `sp - 1`, lower byte at `sp - 2`.
    fn push_word<M: Memory>(&mut self, memory: &mut M, v: u16)
        ensures
            final(memory).contents() == pushed::<M>(old(memory).contents(), old(self).registers.sp, v),
            final(self).registers@ == (RegisterState {
                sp: wrap16(old(self).registers.sp - 2),
                ..old(self).registers@
            }),
    {
        let upper = wrapping_dec(self.registers.sp);
        memory.write(upper, (v / 256) as u8);
        let lower = wrapping_dec(upper);
        assert(lower == wrap16(old(self).registers.sp - 2));
        memory.write(lower, (v % 256) as u8);
        self.registers.sp = lower;
    }

    /// Pops a 16-bit value: lower byte at `sp`, upper byte at `sp + 1`.
    fn pop_word<M: Memory>(&mut self, memory: &M) -> (v: u16)
        ensures
            v == popped(memory.contents(), old(self).registers.sp),
            final(self).registers@ == (RegisterState {
                sp: wrap16(old(self).registers.sp + 2),
                ..old(self).registers@
            }),
    {
        let lo = memory.read(self.registers.sp);
        let upper = wrapping_inc(self.registers.sp);
        let hi = memory.read(upper);
        self.registers.sp = wrapping_inc(upper);
        assert(self.registers.sp == wrap16(old(self).registers.sp + 2));
        join(hi, lo)
    }

    /// Whether the flags meet a condition.
    fn condition(&self, cc: Cond) -> (r: bool)
        ensures
            r == cond_holds(self.registers.f@, cc),
    {
        match cc {
            Cond::NotZero => !self.registers.f.zero(),
            Cond::Zero => self.registers.f.zero(),
            Cond::NotCarry => !self.registers.f.carry(),
            Cond::Carry => self.registers.f.carry(),
        }
    }

    /// Reads the byte at `pc` and moves `pc` past it.
    fn fetch_byte<M: Memory>(&mut self, memory: &M) -> (b: u8)
        ensures
            b == memory.contents()[old(self).registers.pc as int],
            final(self).registers@ == advance(old(self).registers@, 1),
    {
        let b = memory.read(self.registers.pc);
        self.registers.pc = wrapping_inc(self.registers.pc);
        b
    }

    /// Reads the 16-bit immediate at `pc`, lower byte first, and moves `pc` past it.
    fn fetch_word<M: Memory>(&mut self, memory: &M) -> (w: u16)
        ensures
            w == immediate16(old(self).registers@, memory.contents()),
            final(self).registers@ == advance(old(self).registers@, 2),
    {
        let lo = self.fetch_byte(memory);
        let hi = self.fetch_byte(memory);
        hi as u16 * 256 + lo as u16
    }

    /// Executes a prefixed instruction.
    #[verifier::spinoff_prover]
    fn execute_prefixed<M: Memory>(&mut self, i: PrefixedInstruction, memory: &mut M)
        requires
            match i {
                PrefixedInstruction::Test(b, _) => b < 8,
                PrefixedInstruction::Reset(b, _) => b < 8,
                PrefixedInstruction::Raise(b, _) => b < 8,
                PrefixedInstruction::TestIndirect(b) => b < 8,
                PrefixedInstruction::ResetIndirect(b) => b < 8,
                PrefixedInstruction::RaiseIndirect(b) => b < 8,
                PrefixedInstruction::Shift(_, _) => true,
                PrefixedInstruction::ShiftIndirect(_) => true,
            },
        ensures
            (final(self).registers@, final(memory).contents()) == execute_prefixed_spec::<M>(
                i,
                old(self).registers@,
                old(memory).contents(),
            ),
    {
        let c = self.registers.f.carry();
        match i {
            PrefixedInstruction::Shift(op, r) => {
                let (res, out) = shift(op, self.registers.get_reg(r), c);
                self.registers.set_reg(r, res);
                self.registers.f = FlagsRegister::from_flags(res == 0, false, false, out);
            },
            PrefixedInstruction::Test(b, r) => {
                let v = self.registers.get_reg(r);
                self.registers.f = FlagsRegister::from_flags((v >> b) & 1 != 1, false, true, c);
            },
            PrefixedInstruction::Reset(b, r) => {
                let v = self.registers.get_reg(r);
                self.registers.set_reg(r, v & !(1u8 << b));
            },
            PrefixedInstruction::Raise(b, r) => {
                let v = self.registers.get_reg(r);
                self.registers.set_reg(r, v | (1u8 << b));
            },
            PrefixedInstruction::ShiftIndirect(op) => {
                let address = self.registers.hl();
                let (res, out) = shift(op, memory.read(address), c);
                memory.write(address, res);
                self.registers.f = FlagsRegister::from_flags(res == 0, false, false, out);
            },
            PrefixedInstruction::TestIndirect(b) => {
                let v = memory.read(self.registers.hl());
                self.registers.f = FlagsRegister::from_flags((v >> b) & 1 != 1, false, true, c);
            },
            PrefixedInstruction::ResetIndirect(b) => {
                let address = self.registers.hl();
                let v = memory.read(address);
                memory.write(address, v & !(1u8 << b));
            },
            PrefixedInstruction::RaiseIndirect(b) => {
                let address = self.registers.hl();
                let v = memory.read(address);
                memory.write(address, v | (1u8 << b));
            },
        }
    }

    /// Executes `ld rr, d16`.
    fn load_pair_immediate<M: Memory>(&mut self, p: Pair, memory: &mut M) -> (out: Result<(), UnknownInstruction>)
        ensures
            (final(self).registers@, final(memory).contents(), out) == execute_spec::<M>(
                Instruction::LoadPairImmediate(p),
                old(self).registers@,
                old(memory).contents(),
            ),
    {
        let v = self.fetch_word(memory);
        self.registers.set_pair(p, v);
        Ok(())
    }

    /// Executes `ld (rr), a`.
    fn store_a_indirect<M: Memory>(&mut self, p: Pair, memory: &mut M) -> (out: Result<(), UnknownInstruction>)
        ensures
            (final(self).registers@, final(memory).contents(), out) == execute_spec::<M>(
                Instruction::StoreAIndirect(p),
                old(self).registers@,
                old(memory).contents(),
            ),
    {
        let address = self.registers.get_pair(p);
        memory.write(address, self.registers.a);
        Ok(())
    }

    /// Executes `ld a, (rr)`.
    fn load_a_indirect<M: Memory>(&mut self, p: Pair, memory: &mut M) -> (out: Result<(), UnknownInstruction>)
        ensures
            (final(self).registers@, final(memory).contents(), out) == execute_spec::<M>(
                Instruction::LoadAIndirect(p),
                old(self).registers@,
                old(memory).contents(),
            ),
    {
        let address = self.registers.get_pair(p);
        self.registers.a = memory.read(address);
        Ok(())
    }

    /// Executes `inc rr`.
    fn inc_pair<M: Memory>(&mut self, p: Pair, memory: &mut M) -> (out: Result<(), UnknownInstruction>)
        ensures
            (final(self).registers@, final(memory).contents(), out) == execute_spec::<M>(
                Instruction::IncPair(p),
                old(self).registers@,
                old(memory).contents(),
            ),
    {
        let v = self.registers.get_pair(p);
        self.registers.set_pair(p, wrapping_inc(v));
        Ok(())
    }

    /// Executes `dec rr`.
    fn dec_pair<M: Memory>(&mut self, p: Pair, memory: &mut M) -> (out: Result<(), UnknownInstruction>)
        ensures
            (final(self).registers@, final(memory).contents(), out) == execute_spec::<M>(
                Instruction::DecPair(p),
                old(self).registers@,
                old(memory).contents(),
            ),
    {
        let v = self.registers.get_pair(p);
        self.registers.set_pair(p, wrapping_dec(v));
        Ok(())
    }

    /// Executes `inc r`.
    #[verifier::spinoff_prover]
    fn inc_reg<M: Memory>(&mut self, r: Reg, memory: &mut M) -> (out: Result<(), UnknownInstruction>)
        ensures
            (final(self).registers@, final(memory).contents(), out) == execute_spec::<M>(
                Instruction::IncReg(r),
                old(self).registers@,
                old(memory).contents(),
            ),
    {
        let (v, f) = inc_dec(self.registers.get_reg(r), &self.registers.f, true);
        self.registers.set_reg(r, v);
        self.registers.f = f;
        Ok(())
    }

    /// Executes `dec r`.
    #[verifier::spinoff_prover]
    fn dec_reg<M: Memory>(&mut self, r: Reg, memory: &mut M) -> (out: Result<(), UnknownInstruction>)
        ensures
            (final(self).registers@, final(memory).contents(), out) == execute_spec::<M>(
                Instruction::DecReg(r),
                old(self).registers@,
                old(memory).contents(),
            ),
    {
        let (v, f) = inc_dec(self.registers.get_reg(r), &self.registers.f, false);
        self.registers.set_reg(r, v);
        self.registers.f = f;
        Ok(())
    }

    /// Executes `ld r, d8`.
    fn load_reg_immediate<M: Memory>(&mut self, r: Reg, memory: &mut M) -> (out: Result<(), UnknownInstruction>)
        ensures
            (final(self).registers@, final(memory).contents(), out) == execute_spec::<M>(
                Instruction::LoadRegImmediate(r),
                old(self).registers@,
                old(memory).contents(),
            ),
    {
        let v = self.fetch_byte(memory);
        self.registers.set_reg(r, v);
        Ok(())
    }

    /// Executes `ld dst, src`.
    fn load_reg<M: Memory>(&mut self, dst: Reg, src: Reg, memory: &mut M) -> (out: Result<(), UnknownInstruction>)
        ensures
            (final(self).registers@, final(memory).contents(), out) == execute_spec::<M>(
                Instruction::LoadReg(dst, src),
                old(self).registers@,
                old(memory).contents(),
            ),
    {
        let v = self.registers.get_reg(src);
        self.registers.set_reg(dst, v);
        Ok(())
    }

    /// Executes an accumulator operation with a register.
    fn alu_reg<M: Memory>(&mut self, op: AluOp, r: Reg, memory: &mut M) -> (out: Result<(), UnknownInstruction>)
        ensures
            (final(self).registers@, final(memory).contents(), out) == execute_spec::<M>(
                Instruction::Alu(op, r),
                old(self).registers@,
                old(memory).contents(),
            ),
    {
        let v = self.registers.get_reg(r);
        let (a, f) = alu(op, self.registers.a, v, self.registers.f.carry());
        self.registers.a = a;
        self.registers.f = f;
        Ok(())
    }

    /// Executes `push rr`.
    fn push<M: Memory>(&mut self, q: StackPair, memory: &mut M) -> (out: Result<(), UnknownInstruction>)
        ensures
            (final(self).registers@, final(memory).contents(), out) == execute_spec::<M>(
                Instruction::Push(q),
                old(self).registers@,
                old(memory).contents(),
            ),
    {
        let v: u16 = match q {
            StackPair::BC => self.registers.bc(),
            StackPair::DE => self.registers.de(),
            StackPair::HL => self.registers.hl(),
            StackPair::AF => join(self.registers.a, self.registers.f.to_byte()),
        };
        self.push_word(memory, v);
        Ok(())
    }

    /// Executes `pop rr`.
    fn pop<M: Memory>(&mut self, q: StackPair, memory: &mut M) -> (out: Result<(), UnknownInstruction>)
        ensures
            (final(self).registers@, final(memory).contents(), out) == execute_spec::<M>(
                Instruction::Pop(q),
                old(self).registers@,
                old(memory).contents(),
            ),
    {
        let ghost s = self.registers@;
        let v = self.pop_word(memory);
        let ghost popped_state = self.registers@;
        let hi = (v / 256) as u8;
        let lo = (v % 256) as u8;
        assert(hi == memory.contents()[wrap16(s.sp + 1) as int] && lo == memory.contents()[s.sp as int]);
        match q {
            StackPair::BC => {
                self.registers.b = hi;
                self.registers.c = lo;
            },
            StackPair::DE => {
                self.registers.d = hi;
                self.registers.e = lo;
            },
            StackPair::HL => {
                self.registers.h = hi;
                self.registers.l = lo;
            },
            StackPair::AF => {
                self.registers.a = hi;
                self.registers.f = FlagsRegister::from_byte(lo);
            },
        }
        assert(self.registers@ == with_stack_pair(popped_state, q, hi, lo));
        Ok(())
    }

    /// Executes the instruction after the prefix byte.
    fn prefixed<M: Memory>(&mut self, memory: &mut M) -> (out: Result<(), UnknownInstruction>)
        ensures
            (final(self).registers@, final(memory).contents(), out) == execute_spec::<M>(
                Instruction::Prefix,
                old(self).registers@,
                old(memory).contents(),
            ),
    {
        let opcode = self.fetch_byte(memory);
        self.execute_prefixed(decode_prefixed(opcode), memory);
        Ok(())
    }

    /// Executes `add hl, rr`.
    fn add_hl<M: Memory>(&mut self, p: Pair, memory: &mut M) -> (out: Result<(), UnknownInstruction>)
        ensures
            (final(self).registers@, final(memory).contents(), out) == execute_spec::<M>(
                Instruction::AddHl(p),
                old(self).registers@,
                old(memory).contents(),
            ),
    {
        let hl = self.registers.hl();
        let v = self.registers.get_pair(p);
        let sum: u32 = hl as u32 + v as u32;
        let z = self.registers.f.zero();
        self.registers.set_hl((sum % 65536) as u16);
        let ghost set = self.registers@;
        self.registers.f = FlagsRegister::from_flags(z, false, hl % 4096 + v % 4096 > 4095, sum > 65535);
        assert(self.registers@ == RegisterState {
            f: pack_flags(z, false, hl % 4096 + v % 4096 > 4095, sum > 65535),
            ..set
        });
        Ok(())
    }

    /// Executes `jp a16` and `jp cc, a16`.
    fn jump_if<M: Memory>(&mut self, cc: Option<Cond>, memory: &mut M) -> (out: Result<(), UnknownInstruction>)
        ensures
            (final(self).registers@, final(memory).contents(), out) == execute_spec::<M>(
                match cc {
                    Some(c) => Instruction::JumpIf(c),
                    None => Instruction::Jump,
                },
                old(self).registers@,
                old(memory).contents(),
            ),
    {
        let taken = match cc {
            Some(c) => self.condition(c),
            None => true,
        };
        let target = self.fetch_word(memory);
        if taken {
            self.registers.pc = target;
        }
        Ok(())
    }

    /// Executes `jr e8` and `jr cc, e8`.
    #[verifier::spinoff_prover]
    fn jump_relative<M: Memory>(&mut self, cc: Option<Cond>, memory: &mut M) -> (out: Result<(), UnknownInstruction>)
        ensures
            (final(self).registers@, final(memory).contents(), out) == execute_spec::<M>(
                match cc {
                    Some(c) => Instruction::JumpRelativeIf(c),
                    None => Instruction::JumpRelative,
                },
                old(self).registers@,
                old(memory).contents(),
            ),
    {
        let taken = match cc {
            Some(c) => self.condition(c),
            None => true,
        };
        let e = self.fetch_byte(memory);
        if taken {
            self.registers.pc = relative_target(self.registers.pc, e);
        }
        Ok(())
    }

    /// Executes `call a16` and `call cc, a16`.
    fn call_if<M: Memory>(&mut self, cc: Option<Cond>, memory: &mut M) -> (out: Result<(), UnknownInstruction>)
        ensures
            (final(self).registers@, final(memory).contents(), out) == execute_spec::<M>(
                match cc {
                    Some(c) => Instruction::CallIf(c),
                    None => Instruction::Call,
                },
                old(self).registers@,
                old(memory).contents(),
            ),
    {
        let taken = match cc {
            Some(c) => self.condition(c),
            None => true,
        };
        let target = self.fetch_word(memory);
        if taken {
            let ret = self.registers.pc;
            self.push_word(memory, ret);
            self.registers.pc = target;
        }
        Ok(())
    }

    /// Executes `ret` and `ret cc`.
    fn return_if<M: Memory>(&mut self, cc: Option<Cond>, memory: &mut M) -> (out: Result<(), UnknownInstruction>)
        ensures
            (final(self).registers@, final(memory).contents(), out) == execute_spec::<M>(
                match cc {
                    Some(c) => Instruction::ReturnIf(c),
                    None => Instruction::Return,
                },
                old(self).registers@,
                old(memory).contents(),
            ),
    {
        let taken = match cc {
            Some(c) => self.condition(c),
            None => true,
        };
        if taken {
            let target = self.pop_word(memory);
            self.registers.pc = target;
        }
        Ok(())
    }

    /// Executes `ld r, (hl)`.
    #[verifier::spinoff_prover]
    fn load_reg_indirect<M: Memory>(&mut self, r: Reg, memory: &mut M) -> (out: Result<(), UnknownInstruction>)
        ensures
            (final(self).registers@, final(memory).contents(), out) == execute_spec::<M>(
                Instruction::LoadRegIndirect(r),
                old(self).registers@,
                old(memory).contents(),
            ),
    {
        let v = memory.read(self.registers.hl());
        self.registers.set_reg(r, v);
        Ok(())
    }

    /// Executes `ld (hl), r`.
    #[verifier::spinoff_prover]
    fn store_reg_indirect<M: Memory>(&mut self, r: Reg, memory: &mut M) -> (out: Result<(), UnknownInstruction>)
        ensures
            (final(self).registers@, final(memory).contents(), out) == execute_spec::<M>(
                Instruction::StoreRegIndirect(r),
                old(self).registers@,
                old(memory).contents(),
            ),
    {
        let address = self.registers.hl();
        memory.write(address, self.registers.get_reg(r));
        Ok(())
    }

    /// Executes `ld (hl), d8`.
    #[verifier::spinoff_prover]
    fn store_immediate_indirect<M: Memory>(&mut self, memory: &mut M) -> (out: Result<(), UnknownInstruction>)
        ensures
            (final(self).registers@, final(memory).contents(), out) == execute_spec::<M>(
                Instruction::StoreImmediateIndirect,
                old(self).registers@,
                old(memory).contents(),
            ),
    {
        let address = self.registers.hl();
        let v = self.fetch_byte(memory);
        memory.write(address, v);
        Ok(())
    }

    /// Executes `inc (hl)`.
    #[verifier::spinoff_prover]
    fn inc_indirect<M: Memory>(&mut self, memory: &mut M) -> (out: Result<(), UnknownInstruction>)
        ensures
            (final(self).registers@, final(memory).contents(), out) == execute_spec::<M>(
                Instruction::IncIndirect,
                old(self).registers@,
                old(memory).contents(),
            ),
    {
        let address = self.registers.hl();
        let (v, f) = inc_dec(memory.read(address), &self.registers.f, true);
        memory.write(address, v);
        self.registers.f = f;
        Ok(())
    }

    /// Executes `dec (hl)`.
    #[verifier::spinoff_prover]
    fn dec_indirect<M: Memory>(&mut self, memory: &mut M) -> (out: Result<(), UnknownInstruction>)
        ensures
            (final(self).registers@, final(memory).contents(), out) == execute_spec::<M>(
                Instruction::DecIndirect,
                old(self).registers@,
                old(memory).contents(),
            ),
    {
        let address = self.registers.hl();
        let (v, f) = inc_dec(memory.read(address), &self.registers.f, false);
        memory.write(address, v);
        self.registers.f = f;
        Ok(())
    }

    /// Executes `ld (hl+), a` and `ld (hl-), a`.
    #[verifier::spinoff_prover]
    fn store_a_hl<M: Memory>(&mut self, step: HlStep, memory: &mut M) -> (out: Result<(), UnknownInstruction>)
        ensures
            (final(self).registers@, final(memory).contents(), out) == execute_spec::<M>(
                Instruction::StoreAHl(step),
                old(self).registers@,
                old(memory).contents(),
            ),
    {
        let address = self.registers.hl();
        memory.write(address, self.registers.a);
        self.registers.set_hl(hl_moved(address, step));
        Ok(())
    }

    /// Executes `ld a, (hl+)` and `ld a, (hl-)`.
    #[verifier::spinoff_prover]
    fn load_a_hl<M: Memory>(&mut self, step: HlStep, memory: &mut M) -> (out: Result<(), UnknownInstruction>)
        ensures
            (final(self).registers@, final(memory).contents(), out) == execute_spec::<M>(
                Instruction::LoadAHl(step),
                old(self).registers@,
                old(memory).contents(),
            ),
    {
        let address = self.registers.hl();
        let v = memory.read(address);
        self.registers.set_hl(hl_moved(address, step));
        self.registers.a = v;
        Ok(())
    }

    /// Executes `ldh (a8), a`, `ld (c), a` and `ld (a16), a`.
    #[verifier::spinoff_prover]
    fn store_a_direct<M: Memory>(&mut self, i: Instruction, memory: &mut M) -> (out: Result<
        (),
        UnknownInstruction,
    >)
        requires
            i == Instruction::StoreHighC || i == Instruction::StoreHigh || i == Instruction::StoreAbsolute,
        ensures
            (final(self).registers@, final(memory).contents(), out) == execute_spec::<M>(
                i,
                old(self).registers@,
                old(memory).contents(),
            ),
    {
        let address = match i {
            Instruction::StoreHighC => 0xFF00 + self.registers.c as u16,
            Instruction::StoreHigh => {
                let offset = self.fetch_byte(memory);
                0xFF00 + offset as u16
            },
            _ => self.fetch_word(memory),
        };
        memory.write(address, self.registers.a);
        Ok(())
    }

    /// Executes `ldh a, (a8)`, `ld a, (c)` and `ld a, (a16)`.
    #[verifier::spinoff_prover]
    fn load_a_direct<M: Memory>(&mut self, i: Instruction, memory: &mut M) -> (out: Result<
        (),
        UnknownInstruction,
    >)
        requires
            i == Instruction::LoadHighC || i == Instruction::LoadHigh || i == Instruction::LoadAbsolute,
        ensures
            (final(self).registers@, final(memory).contents(), out) == execute_spec::<M>(
                i,
                old(self).registers@,
                old(memory).contents(),
            ),
    {
        let address = match i {
            Instruction::LoadHighC => 0xFF00 + self.registers.c as u16,
            Instruction::LoadHigh => {
                let offset = self.fetch_byte(memory);
                0xFF00 + offset as u16
            },
            _ => self.fetch_word(memory),
        };
        self.registers.a = memory.read(address);
        Ok(())
    }

    /// Executes an accumulator operation with the byte at `hl` or an immediate byte.
    #[verifier::spinoff_prover]
    fn alu_memory<M: Memory>(&mut self, op: AluOp, immediate: bool, memory: &mut M) -> (out: Result<(), UnknownInstruction>)
        ensures
            (final(self).registers@, final(memory).contents(), out) == execute_spec::<M>(
                if immediate {
                    Instruction::AluImmediate(op)
                } else {
                    Instruction::AluIndirect(op)
                },
                old(self).registers@,
                old(memory).contents(),
            ),
    {
        let v = if immediate {
            self.fetch_byte(memory)
        } else {
            memory.read(self.registers.hl())
        };
        let (a, f) = alu(op, self.registers.a, v, self.registers.f.carry());
        self.registers.a = a;
        self.registers.f = f;
        Ok(())
    }

    /// Executes `ld (a16), sp`.
    #[verifier::spinoff_prover]
    fn store_sp<M: Memory>(&mut self, memory: &mut M) -> (out: Result<(), UnknownInstruction>)
        ensures
            (final(self).registers@, final(memory).contents(), out) == execute_spec::<M>(
                Instruction::StoreSp,
                old(self).registers@,
                old(memory).contents(),
            ),
    {
        let address = self.fetch_word(memory);
        let sp = self.registers.sp;
        memory.write(address, (sp % 256) as u8);
        memory.write(wrapping_inc(address), (sp / 256) as u8);
        Ok(())
    }

    /// Executes `rlca`, `rrca`, `rla` and `rra`.
    #[verifier::spinoff_prover]
    fn rotate_a<M: Memory>(&mut self, op: ShiftOp, memory: &mut M) -> (out: Result<(), UnknownInstruction>)
        ensures
            (final(self).registers@, final(memory).contents(), out) == execute_spec::<M>(
                Instruction::RotateA(op),
                old(self).registers@,
                old(memory).contents(),
            ),
    {
        let (res, out) = shift(op, self.registers.a, self.registers.f.carry());
        self.registers.a = res;
        self.registers.f = FlagsRegister::from_flags(false, false, false, out);
        Ok(())
    }

    /// Executes `cpl`.
    #[verifier::spinoff_prover]
    fn complement<M: Memory>(&mut self, memory: &mut M) -> (out: Result<(), UnknownInstruction>)
        ensures
            (final(self).registers@, final(memory).contents(), out) == execute_spec::<M>(
                Instruction::Complement,
                old(self).registers@,
                old(memory).contents(),
            ),
    {
        let z = self.registers.f.zero();
        let c = self.registers.f.carry();
        self.registers.a = !self.registers.a;
        self.registers.f = FlagsRegister::from_flags(z, true, true, c);
        Ok(())
    }

    /// Executes `scf` and `ccf`.
    #[verifier::spinoff_prover]
    fn set_carry<M: Memory>(&mut self, flip: bool, memory: &mut M) -> (out: Result<(), UnknownInstruction>)
        ensures
            (final(self).registers@, final(memory).contents(), out) == execute_spec::<M>(
                if flip {
                    Instruction::FlipCarry
                } else {
                    Instruction::SetCarry
                },
                old(self).registers@,
                old(memory).contents(),
            ),
    {
        let z = self.registers.f.zero();
        let c = if flip {
            !self.registers.f.carry()
        } else {
            true
        };
        self.registers.f = FlagsRegister::from_flags(z, false, false, c);
        Ok(())
    }

    /// Executes `rst n`.
    #[verifier::spinoff_prover]
    fn restart<M: Memory>(&mut self, n: u8, memory: &mut M) -> (out: Result<(), UnknownInstruction>)
        ensures
            (final(self).registers@, final(memory).contents(), out) == execute_spec::<M>(
                Instruction::Restart(n),
                old(self).registers@,
                old(memory).contents(),
            ),
    {
        let ret = self.registers.pc;
        self.push_word(memory, ret);
        self.registers.pc = n as u16;
        Ok(())
    }

    /// Executes `daa`.
    #[verifier::spinoff_prover]
    fn daa<M: Memory>(&mut self, memory: &mut M) -> (out: Result<(), UnknownInstruction>)
        ensures
            (final(self).registers@, final(memory).contents(), out) == execute_spec::<M>(
                Instruction::DecimalAdjust,
                old(self).registers@,
                old(memory).contents(),
            ),
    {
        let (a, f) = decimal_adjust(self.registers.a, &self.registers.f);
        self.registers.a = a;
        self.registers.f = f;
        Ok(())
    }

    /// Executes `add sp, e8` and `ld hl, sp+e8`.
    #[verifier::spinoff_prover]
    fn sp_offset_op<M: Memory>(&mut self, to_hl: bool, memory: &mut M) -> (out: Result<(), UnknownInstruction>)
        ensures
            (final(self).registers@, final(memory).contents(), out) == execute_spec::<M>(
                if to_hl {
                    Instruction::LoadHlSpOffset
                } else {
                    Instruction::AddSpOffset
                },
                old(self).registers@,
                old(memory).contents(),
            ),
    {
        let e = self.fetch_byte(memory);
        let (v, f) = sp_offset(self.registers.sp, e);
        self.registers.f = f;
        if to_hl {
            self.registers.set_hl(v);
        } else {
            self.registers.sp = v;
        }
        Ok(())
    }

    /// Executes a primary instruction whose opcode has been fetched.
    fn execute<M: Memory>(&mut self, i: Instruction, memory: &mut M) -> (r: Result<
        (),
        UnknownInstruction,
    >)
        ensures
            (final(self).registers@, final(memory).contents(), r) == execute_spec::<M>(
                i,
                old(self).registers@,
                old(memory).contents(),
            ),
    {
        match i {
            Instruction::Nop => Ok(()),
            Instruction::LoadPairImmediate(p) => self.load_pair_immediate(p, memory),
            Instruction::StoreAIndirect(p) => self.store_a_indirect(p, memory),
            Instruction::LoadAIndirect(p) => self.load_a_indirect(p, memory),
            Instruction::IncPair(p) => self.inc_pair(p, memory),
            Instruction::DecPair(p) => self.dec_pair(p, memory),
            Instruction::IncReg(r) => self.inc_reg(r, memory),
            Instruction::DecReg(r) => self.dec_reg(r, memory),
            Instruction::LoadRegImmediate(r) => self.load_reg_immediate(r, memory),
            Instruction::LoadReg(dst, src) => self.load_reg(dst, src, memory),
            Instruction::Alu(op, r) => self.alu_reg(op, r, memory),
            Instruction::LoadRegIndirect(r) => self.load_reg_indirect(r, memory),
            Instruction::StoreRegIndirect(r) => self.store_reg_indirect(r, memory),
            Instruction::StoreImmediateIndirect => self.store_immediate_indirect(memory),
            Instruction::IncIndirect => self.inc_indirect(memory),
            Instruction::DecIndirect => self.dec_indirect(memory),
            Instruction::StoreAHl(step) => self.store_a_hl(step, memory),
            Instruction::LoadAHl(step) => self.load_a_hl(step, memory),
            Instruction::StoreHighC | Instruction::StoreHigh | Instruction::StoreAbsolute => {
                self.store_a_direct(i, memory)
            },
            Instruction::LoadHighC | Instruction::LoadHigh | Instruction::LoadAbsolute => {
                self.load_a_direct(i, memory)
            },
            Instruction::AluIndirect(op) => self.alu_memory(op, false, memory),
            Instruction::AluImmediate(op) => self.alu_memory(op, true, memory),
            Instruction::StoreSp => self.store_sp(memory),
            Instruction::LoadSpHl => {
                self.registers.sp = self.registers.hl();
                Ok(())
            },
            Instruction::RotateA(op) => self.rotate_a(op, memory),
            Instruction::DecimalAdjust => self.daa(memory),
            Instruction::AddSpOffset => self.sp_offset_op(false, memory),
            Instruction::LoadHlSpOffset => self.sp_offset_op(true, memory),
            Instruction::Complement => self.complement(memory),
            Instruction::SetCarry => self.set_carry(false, memory),
            Instruction::FlipCarry => self.set_carry(true, memory),
            Instruction::JumpHl => {
                self.registers.pc = self.registers.hl();
                Ok(())
            },
            Instruction::Restart(n) => self.restart(n, memory),
            Instruction::AddHl(p) => self.add_hl(p, memory),
            Instruction::Jump => self.jump_if(None, memory),
            Instruction::JumpIf(cc) => self.jump_if(Some(cc), memory),
            Instruction::JumpRelative => self.jump_relative(None, memory),
            Instruction::JumpRelativeIf(cc) => self.jump_relative(Some(cc), memory),
            Instruction::Call => self.call_if(None, memory),
            Instruction::CallIf(cc) => self.call_if(Some(cc), memory),
            Instruction::Return => self.return_if(None, memory),
            Instruction::ReturnIf(cc) => self.return_if(Some(cc), memory),
            Instruction::Push(q) => self.push(q, memory),
            Instruction::Pop(q) => self.pop(q, memory),
            Instruction::Prefix => self.prefixed(memory),
        }
    }

    /// Fetches the opcode at `pc`, moves `pc` past it, and executes the
    /// instruction it selects, reading any immediate bytes after it. An opcode
    /// that neither table holds is reported as `UnknownInstruction`.
    pub fn step<M: Memory>(&mut self, memory: &mut M) -> (out: Result<(), UnknownInstruction>)
        ensures
            (final(self).registers@, final(memory).contents(), out) == step_spec::<M>(
                old(self).registers@,
                old(memory).contents(),
            ),
    {
        let pc = self.registers.pc;
        let opcode = self.fetch_byte(memory);
        match decode(opcode) {
            Some(i) => self.execute(i, memory),
            None => Err(UnknownInstruction { opcode, pc }),
        }
    }
}

/// Moving a 16-bit register by one up (`inc rr`) or down (`dec rr`) wraps
/// modulo 2^16: up from 0xFFFF gives zero, down from zero gives 0xFFFF. No
/// other register changes.
pub proof fn lemma_pair_wraps(s: RegisterState, p: Pair)
    ensures
        pair_of(pair_moved(s, p, 1), p) == if pair_of(s, p) == 0xFFFF {
            0
        } else {
            pair_of(s, p) + 1
        },
        pair_of(pair_moved(s, p, -1), p) == if pair_of(s, p) == 0 {
            0xFFFF
        } else {
            pair_of(s, p) - 1
        },
        forall|q: Pair| q != p ==> pair_of(#[trigger] pair_moved(s, p, 1), q) == pair_of(s, q),
        forall|q: Pair| q != p ==> pair_of(#[trigger] pair_moved(s, p, -1), q) == pair_of(s, q),
        pair_moved(s, p, 1).pc == s.pc && pair_moved(s, p, 1).a == s.a && pair_moved(s, p, 1).f
            == s.f,
        pair_moved(s, p, -1).pc == s.pc && pair_moved(s, p, -1).a == s.a && pair_moved(s, p, -1).f
            == s.f,
{
    crate::registers::lemma_pair_round_trip(s, p, wrap16(pair_of(s, p) + 1));
    crate::registers::lemma_pair_round_trip(s, p, wrap16(pair_of(s, p) - 1));
}

/// An opcode that the primary table does not hold faults, naming the opcode
/// and the address it came from; `pc` stays just past it and nothing else
/// changes, in the registers or in memory.
pub proof fn lemma_unknown_opcode_fault<M: Memory>(s: RegisterState, mem: Seq<u8>)
    requires
        opcode_table(mem[s.pc as int]) is None,
    ensures
        step_spec::<M>(s, mem) == (
            advance(s, 1),
            mem,
            Err::<(), UnknownInstruction>(
                UnknownInstruction { opcode: mem[s.pc as int], pc: s.pc },
            ),
        ),
{
}

} // verus!
