use dmg_core::instruction::{decode, decode_prefixed};
use dmg_core::{
    AluOp, Cpu, FlatMemory, Instruction, Memory, MemoryBus, Pair, PrefixedInstruction, Reg,
    ShiftOp, StackPair, UnknownInstruction,
};

fn flat_with(start: u16, bytes: &[u8]) -> FlatMemory {
    let mut m = FlatMemory::new();
    for (i, b) in bytes.iter().enumerate() {
        m.write(start + i as u16, *b);
    }
    m
}

#[test]
fn load_bc_immediate_from_rom() {
    let mut m = MemoryBus::new();
    m.load_rom(&[0x01, 0x34, 0x12]);
    let mut cpu = Cpu::new();
    assert_eq!(cpu.step(&mut m), Ok(()));
    assert_eq!(cpu.registers.bc(), 0x1234);
    assert_eq!(cpu.registers.pc, 3);
}

#[test]
fn store_a_through_bc() {
    let mut m = MemoryBus::new();
    m.write_byte(0xC100, 0x02);
    let mut cpu = Cpu::new();
    cpu.registers.pc = 0xC100;
    cpu.registers.a = 0xAB;
    cpu.registers.set_bc(0x9000);
    assert_eq!(cpu.step(&mut m), Ok(()));
    assert_eq!(m.read_byte(0x9000), 0xAB);
    assert_eq!(cpu.registers.pc, 0xC101);
}

#[test]
fn nop_only_moves_pc() {
    let mut m = flat_with(0x0200, &[0x00]);
    let mut cpu = Cpu::new();
    cpu.registers.pc = 0x0200;
    cpu.registers.a = 1;
    cpu.registers.set_bc(0x0203);
    cpu.registers.set_de(0x0405);
    cpu.registers.set_hl(0x0607);
    cpu.registers.sp = 0xFFFE;
    cpu.registers.f = dmg_core::FlagsRegister::from_byte(0xB0);
    assert_eq!(cpu.step(&mut m), Ok(()));
    assert_eq!(cpu.registers.pc, 0x0201);
    assert_eq!(cpu.registers.a, 1);
    assert_eq!((cpu.registers.bc(), cpu.registers.de(), cpu.registers.hl()), (0x0203, 0x0405, 0x0607));
    assert_eq!(cpu.registers.sp, 0xFFFE);
    assert_eq!(cpu.registers.f.to_byte(), 0xB0);
    for a in 0u32..=0xFFFF {
        let expected = if a == 0x0200 { 0x00 } else { 0 };
        assert_eq!(m.read(a as u16), expected);
    }
}

#[test]
fn unknown_opcode_faults_past_the_byte() {
    let mut m = flat_with(0x0010, &[0xD3]);
    let mut cpu = Cpu::new();
    cpu.registers.pc = 0x0010;
    cpu.registers.a = 0x12;
    assert_eq!(
        cpu.step(&mut m),
        Err(UnknownInstruction { opcode: 0xD3, pc: 0x0010 })
    );
    assert_eq!(cpu.registers.pc, 0x0011);
    assert_eq!(cpu.registers.a, 0x12);
    assert_eq!(cpu.registers.f.to_byte(), 0);
}

#[test]
fn prefixed_operations_at_hl() {
    let mut m = flat_with(0, &[0xCB, 0x06, 0xCB, 0x46, 0xCB, 0xFE, 0xCB, 0x86]);
    m.write(0xC000, 0x81);
    let mut cpu = Cpu::new();
    cpu.registers.set_hl(0xC000);
    cpu.step(&mut m).unwrap();
    assert_eq!(m.read(0xC000), 0x03);
    assert_eq!(cpu.registers.f.to_byte(), 0x10);
    cpu.step(&mut m).unwrap();
    assert_eq!(cpu.registers.f.to_byte(), 0x30);
    cpu.step(&mut m).unwrap();
    assert_eq!(m.read(0xC000), 0x83);
    cpu.step(&mut m).unwrap();
    assert_eq!(m.read(0xC000), 0x82);
    assert_eq!(cpu.registers.pc, 8);
}

#[test]
fn inc_bc_wraps_to_zero() {
    let mut m = flat_with(0, &[0x03, 0x0B]);
    let mut cpu = Cpu::new();
    cpu.registers.set_bc(0xFFFF);
    assert_eq!(cpu.step(&mut m), Ok(()));
    assert_eq!(cpu.registers.bc(), 0x0000);
    assert_eq!(cpu.step(&mut m), Ok(()));
    assert_eq!(cpu.registers.bc(), 0xFFFF);
}

#[test]
fn inc_and_dec_register_flags() {
    let mut m = flat_with(0, &[0x04, 0x05, 0x05]);
    let mut cpu = Cpu::new();
    cpu.registers.b = 0xFF;
    cpu.registers.f = dmg_core::FlagsRegister::from_byte(0x10);
    cpu.step(&mut m).unwrap();
    assert_eq!(cpu.registers.b, 0x00);
    assert_eq!(cpu.registers.f.to_byte(), 0xB0);
    cpu.step(&mut m).unwrap();
    assert_eq!(cpu.registers.b, 0xFF);
    assert_eq!(cpu.registers.f.to_byte(), 0x70);
    cpu.step(&mut m).unwrap();
    assert_eq!(cpu.registers.b, 0xFE);
    assert_eq!(cpu.registers.f.to_byte(), 0x50);
}

#[test]
fn add_sets_half_carry_and_carry() {
    let mut m = flat_with(0, &[0x80, 0x80]);
    let mut cpu = Cpu::new();
    cpu.registers.a = 0x3A;
    cpu.registers.b = 0xC6;
    cpu.step(&mut m).unwrap();
    assert_eq!(cpu.registers.a, 0x00);
    assert_eq!(cpu.registers.f.to_byte(), 0xB0);
    cpu.registers.a = 0x0F;
    cpu.registers.b = 0x01;
    cpu.step(&mut m).unwrap();
    assert_eq!(cpu.registers.a, 0x10);
    assert_eq!(cpu.registers.f.to_byte(), 0x20);
}

#[test]
fn adc_and_sbc_use_carry_in() {
    let mut m = flat_with(0, &[0x88, 0x98]);
    let mut cpu = Cpu::new();
    cpu.registers.a = 0xE1;
    cpu.registers.b = 0x0F;
    cpu.registers.f = dmg_core::FlagsRegister::from_byte(0x10);
    cpu.step(&mut m).unwrap();
    assert_eq!(cpu.registers.a, 0xF1);
    assert_eq!(cpu.registers.f.to_byte(), 0x20);
    cpu.registers.a = 0x3B;
    cpu.registers.b = 0x2A;
    cpu.registers.f = dmg_core::FlagsRegister::from_byte(0x10);
    cpu.step(&mut m).unwrap();
    assert_eq!(cpu.registers.a, 0x10);
    assert_eq!(cpu.registers.f.to_byte(), 0x40);
}

#[test]
fn sub_and_cp_borrow() {
    let mut m = flat_with(0, &[0x90, 0xB9]);
    let mut cpu = Cpu::new();
    cpu.registers.a = 0x3E;
    cpu.registers.b = 0x40;
    cpu.step(&mut m).unwrap();
    assert_eq!(cpu.registers.a, 0xFE);
    assert_eq!(cpu.registers.f.to_byte(), 0x50);
    cpu.registers.c = 0xFE;
    cpu.step(&mut m).unwrap();
    assert_eq!(cpu.registers.a, 0xFE);
    assert_eq!(cpu.registers.f.to_byte(), 0xC0);
}

#[test]
fn logic_operations() {
    let mut m = flat_with(0, &[0xA0, 0xA8, 0xB0, 0xAF]);
    let mut cpu = Cpu::new();
    cpu.registers.a = 0x5A;
    cpu.registers.b = 0x0F;
    cpu.step(&mut m).unwrap();
    assert_eq!(cpu.registers.a, 0x0A);
    assert_eq!(cpu.registers.f.to_byte(), 0x20);
    cpu.step(&mut m).unwrap();
    assert_eq!(cpu.registers.a, 0x05);
    assert_eq!(cpu.registers.f.to_byte(), 0x00);
    cpu.step(&mut m).unwrap();
    assert_eq!(cpu.registers.a, 0x0F);
    cpu.step(&mut m).unwrap();
    assert_eq!(cpu.registers.a, 0x00);
    assert_eq!(cpu.registers.f.to_byte(), 0x80);
}

#[test]
fn loads_between_registers_and_memory() {
    let mut m = flat_with(0, &[0x3E, 0x77, 0x47, 0x11, 0x00, 0xC0, 0x12, 0x0E, 0x00, 0x79, 0x1A]);
    let mut cpu = Cpu::new();
    for _ in 0..6 {
        cpu.step(&mut m).unwrap();
    }
    assert_eq!(cpu.registers.b, 0x77);
    assert_eq!(cpu.registers.de(), 0xC000);
    assert_eq!(m.read(0xC000), 0x77);
    assert_eq!(cpu.registers.a, 0x00);
    cpu.step(&mut m).unwrap();
    assert_eq!(cpu.registers.a, 0x77);
    assert_eq!(cpu.registers.pc, 11);
}

#[test]
fn jump_reads_little_endian_target() {
    let mut m = flat_with(0, &[0xC3, 0x50, 0x01]);
    let mut cpu = Cpu::new();
    cpu.step(&mut m).unwrap();
    assert_eq!(cpu.registers.pc, 0x0150);
}

#[test]
fn push_and_pop_af_round_trip() {
    let mut m = flat_with(0, &[0x31, 0xFE, 0xFF, 0xF5, 0xC1, 0xC5, 0xF1]);
    let mut cpu = Cpu::new();
    cpu.registers.a = 0x12;
    cpu.registers.f = dmg_core::FlagsRegister::from_byte(0xA0);
    cpu.step(&mut m).unwrap();
    cpu.step(&mut m).unwrap();
    assert_eq!(cpu.registers.sp, 0xFFFC);
    assert_eq!(m.read(0xFFFD), 0x12);
    assert_eq!(m.read(0xFFFC), 0xA0);
    cpu.step(&mut m).unwrap();
    assert_eq!(cpu.registers.bc(), 0x12A0);
    assert_eq!(cpu.registers.sp, 0xFFFE);
    cpu.registers.set_bc(0x34FF);
    cpu.step(&mut m).unwrap();
    cpu.step(&mut m).unwrap();
    assert_eq!(cpu.registers.a, 0x34);
    assert_eq!(cpu.registers.f.to_byte(), 0xF0);
    assert_eq!(cpu.registers.sp, 0xFFFE);
}

#[test]
fn prefixed_bit_operations() {
    let mut m = flat_with(0, &[0xCB, 0x78, 0xCB, 0xF8, 0xCB, 0x78, 0xCB, 0xB8]);
    let mut cpu = Cpu::new();
    cpu.registers.f = dmg_core::FlagsRegister::from_byte(0x10);
    cpu.step(&mut m).unwrap();
    assert_eq!(cpu.registers.f.to_byte(), 0xB0);
    cpu.step(&mut m).unwrap();
    assert_eq!(cpu.registers.b, 0x80);
    cpu.step(&mut m).unwrap();
    assert_eq!(cpu.registers.f.to_byte(), 0x30);
    cpu.step(&mut m).unwrap();
    assert_eq!(cpu.registers.b, 0x00);
    assert_eq!(cpu.registers.pc, 8);
}

#[test]
fn decode_tables() {
    assert_eq!(decode(0x00), Some(Instruction::Nop));
    assert_eq!(decode(0x31), Some(Instruction::LoadPairImmediate(Pair::SP)));
    assert_eq!(decode(0x1A), Some(Instruction::LoadAIndirect(Pair::DE)));
    assert_eq!(decode(0x3C), Some(Instruction::IncReg(Reg::A)));
    assert_eq!(decode(0x41), Some(Instruction::LoadReg(Reg::B, Reg::C)));
    assert_eq!(decode(0x76), None);
    assert_eq!(decode(0x9F), Some(Instruction::Alu(AluOp::Sbc, Reg::A)));
    assert_eq!(decode(0xF1), Some(Instruction::Pop(StackPair::AF)));
    assert_eq!(decode(0xCB), Some(Instruction::Prefix));
    assert_eq!(decode(0xDD), None);
    assert_eq!(decode_prefixed(0x7C), PrefixedInstruction::Test(7, Reg::H));
    assert_eq!(decode_prefixed(0xC7), PrefixedInstruction::Raise(0, Reg::A));
    assert_eq!(decode_prefixed(0x86), PrefixedInstruction::ResetIndirect(0));
    assert_eq!(decode_prefixed(0x37), PrefixedInstruction::Shift(ShiftOp::Swap, Reg::A));
    assert_eq!(decode_prefixed(0x36), PrefixedInstruction::ShiftIndirect(ShiftOp::Swap));
    assert_eq!(decode(0xEF), Some(Instruction::Restart(0x28)));
    assert_eq!(decode(0x27), Some(Instruction::DecimalAdjust));
    assert_eq!(decode(0xF3), None);
    assert_eq!(decode(0x10), None);
    assert_eq!(decode(0xC9), Some(Instruction::Return));
    assert_eq!(decode(0xD9), None);
}

#[test]
fn relative_jumps_forward_and_back() {
    let mut m = flat_with(0x0100, &[0x18, 0x02, 0x00, 0x00, 0x18, 0xFA]);
    let mut cpu = Cpu::new();
    cpu.registers.pc = 0x0100;
    cpu.step(&mut m).unwrap();
    assert_eq!(cpu.registers.pc, 0x0104);
    cpu.step(&mut m).unwrap();
    assert_eq!(cpu.registers.pc, 0x0100);
}

#[test]
fn conditional_jumps_follow_flags() {
    let mut m = flat_with(0, &[0x20, 0x10, 0x28, 0x10]);
    let mut cpu = Cpu::new();
    cpu.registers.f = dmg_core::FlagsRegister::from_byte(0x80);
    cpu.step(&mut m).unwrap();
    assert_eq!(cpu.registers.pc, 2);
    cpu.step(&mut m).unwrap();
    assert_eq!(cpu.registers.pc, 0x14);
    let mut m = flat_with(0, &[0xDA, 0x00, 0x20, 0xD2, 0x00, 0x30]);
    let mut cpu = Cpu::new();
    cpu.step(&mut m).unwrap();
    assert_eq!(cpu.registers.pc, 3);
    cpu.step(&mut m).unwrap();
    assert_eq!(cpu.registers.pc, 0x3000);
}

#[test]
fn call_and_return() {
    let mut m = flat_with(0x0200, &[0xCD, 0x00, 0x03]);
    m.write(0x0300, 0xC9);
    let mut cpu = Cpu::new();
    cpu.registers.pc = 0x0200;
    cpu.registers.sp = 0xD000;
    cpu.step(&mut m).unwrap();
    assert_eq!(cpu.registers.pc, 0x0300);
    assert_eq!(cpu.registers.sp, 0xCFFE);
    assert_eq!((m.read(0xCFFF), m.read(0xCFFE)), (0x02, 0x03));
    cpu.step(&mut m).unwrap();
    assert_eq!(cpu.registers.pc, 0x0203);
    assert_eq!(cpu.registers.sp, 0xD000);
}

#[test]
fn conditional_call_and_return_not_taken() {
    let mut m = flat_with(0, &[0xC4, 0x00, 0x40, 0xC0]);
    let mut cpu = Cpu::new();
    cpu.registers.sp = 0xD000;
    cpu.registers.f = dmg_core::FlagsRegister::from_byte(0x80);
    cpu.step(&mut m).unwrap();
    assert_eq!(cpu.registers.pc, 3);
    assert_eq!(cpu.registers.sp, 0xD000);
    cpu.step(&mut m).unwrap();
    assert_eq!(cpu.registers.pc, 4);
    assert_eq!(cpu.registers.sp, 0xD000);
}

#[test]
fn add_hl_carries_from_bits_11_and_15() {
    let mut m = flat_with(0, &[0x09, 0x29]);
    let mut cpu = Cpu::new();
    cpu.registers.set_hl(0x8A23);
    cpu.registers.set_bc(0x0605);
    cpu.registers.f = dmg_core::FlagsRegister::from_byte(0x80);
    cpu.step(&mut m).unwrap();
    assert_eq!(cpu.registers.hl(), 0x9028);
    assert_eq!(cpu.registers.f.to_byte(), 0xA0);
    cpu.step(&mut m).unwrap();
    assert_eq!(cpu.registers.hl(), 0x2050);
    assert_eq!(cpu.registers.f.to_byte(), 0x90);
}

#[test]
fn prefixed_rotates_and_swap() {
    let mut m = flat_with(0, &[0xCB, 0x00, 0xCB, 0x11, 0xCB, 0x37, 0xCB, 0x2A, 0xCB, 0x3B]);
    let mut cpu = Cpu::new();
    cpu.registers.b = 0x85;
    cpu.step(&mut m).unwrap();
    assert_eq!(cpu.registers.b, 0x0B);
    assert_eq!(cpu.registers.f.to_byte(), 0x10);
    cpu.registers.c = 0x80;
    cpu.step(&mut m).unwrap();
    assert_eq!(cpu.registers.c, 0x01);
    assert_eq!(cpu.registers.f.to_byte(), 0x10);
    cpu.registers.a = 0xF1;
    cpu.step(&mut m).unwrap();
    assert_eq!(cpu.registers.a, 0x1F);
    assert_eq!(cpu.registers.f.to_byte(), 0x00);
    cpu.registers.d = 0x81;
    cpu.step(&mut m).unwrap();
    assert_eq!(cpu.registers.d, 0xC0);
    assert_eq!(cpu.registers.f.to_byte(), 0x10);
    cpu.registers.e = 0x01;
    cpu.step(&mut m).unwrap();
    assert_eq!(cpu.registers.e, 0x00);
    assert_eq!(cpu.registers.f.to_byte(), 0x90);
}

#[test]
fn operands_at_hl() {
    let mut m = flat_with(0, &[0x36, 0x0F, 0x34, 0x46, 0x70, 0x35, 0x86]);
    let mut cpu = Cpu::new();
    cpu.registers.set_hl(0xC010);
    cpu.step(&mut m).unwrap();
    assert_eq!(m.read(0xC010), 0x0F);
    cpu.step(&mut m).unwrap();
    assert_eq!(m.read(0xC010), 0x10);
    assert_eq!(cpu.registers.f.to_byte(), 0x20);
    cpu.step(&mut m).unwrap();
    assert_eq!(cpu.registers.b, 0x10);
    cpu.registers.b = 0x01;
    cpu.step(&mut m).unwrap();
    assert_eq!(m.read(0xC010), 0x01);
    cpu.step(&mut m).unwrap();
    assert_eq!(m.read(0xC010), 0x00);
    assert_eq!(cpu.registers.f.to_byte(), 0xC0);
    cpu.registers.a = 0x05;
    m.write(0xC010, 0xFB);
    cpu.step(&mut m).unwrap();
    assert_eq!(cpu.registers.a, 0x00);
    assert_eq!(cpu.registers.f.to_byte(), 0xB0);
    assert_eq!(cpu.registers.pc, 7);
}

#[test]
fn hl_increment_and_decrement_accesses() {
    let mut m = flat_with(0, &[0x22, 0x32, 0x2A, 0x3A]);
    let mut cpu = Cpu::new();
    cpu.registers.set_hl(0xC000);
    cpu.registers.a = 0x11;
    cpu.step(&mut m).unwrap();
    assert_eq!(m.read(0xC000), 0x11);
    assert_eq!(cpu.registers.hl(), 0xC001);
    cpu.registers.a = 0x22;
    cpu.step(&mut m).unwrap();
    assert_eq!(m.read(0xC001), 0x22);
    assert_eq!(cpu.registers.hl(), 0xC000);
    cpu.step(&mut m).unwrap();
    assert_eq!(cpu.registers.a, 0x11);
    assert_eq!(cpu.registers.hl(), 0xC001);
    cpu.step(&mut m).unwrap();
    assert_eq!(cpu.registers.a, 0x22);
    assert_eq!(cpu.registers.hl(), 0xC000);
}

#[test]
fn high_page_and_absolute_loads() {
    let mut m = MemoryBus::new();
    m.load_rom(&[0xE0, 0x80, 0xE2, 0xEA, 0x00, 0xC0, 0xF0, 0x81, 0xF2, 0xFA, 0x00, 0xC0]);
    let mut cpu = Cpu::new();
    cpu.registers.a = 0x5A;
    cpu.registers.c = 0x81;
    cpu.step(&mut m).unwrap();
    assert_eq!(m.read_byte(0xFF80), 0x5A);
    cpu.registers.a = 0x6B;
    cpu.step(&mut m).unwrap();
    assert_eq!(m.read_byte(0xFF81), 0x6B);
    cpu.registers.a = 0x7C;
    cpu.step(&mut m).unwrap();
    assert_eq!(m.read_byte(0xC000), 0x7C);
    assert_eq!(m.read_byte(0xE000), 0x7C);
    cpu.step(&mut m).unwrap();
    assert_eq!(cpu.registers.a, 0x6B);
    m.write_byte(0xFF81, 0x3D);
    cpu.step(&mut m).unwrap();
    assert_eq!(cpu.registers.a, 0x3D);
    cpu.step(&mut m).unwrap();
    assert_eq!(cpu.registers.a, 0x7C);
    assert_eq!(cpu.registers.pc, 12);
}

#[test]
fn immediate_accumulator_operations() {
    let mut m = flat_with(0, &[0xC6, 0x01, 0xE6, 0xF0, 0xFE, 0x10, 0xEE, 0xFF]);
    let mut cpu = Cpu::new();
    cpu.registers.a = 0xFF;
    cpu.step(&mut m).unwrap();
    assert_eq!(cpu.registers.a, 0x00);
    assert_eq!(cpu.registers.f.to_byte(), 0xB0);
    cpu.registers.a = 0x1F;
    cpu.step(&mut m).unwrap();
    assert_eq!(cpu.registers.a, 0x10);
    assert_eq!(cpu.registers.f.to_byte(), 0x20);
    cpu.step(&mut m).unwrap();
    assert_eq!(cpu.registers.a, 0x10);
    assert_eq!(cpu.registers.f.to_byte(), 0xC0);
    cpu.step(&mut m).unwrap();
    assert_eq!(cpu.registers.a, 0xEF);
    assert_eq!(cpu.registers.f.to_byte(), 0x00);
    assert_eq!(cpu.registers.pc, 8);
}

#[test]
fn accumulator_rotates_clear_zero() {
    let mut m = flat_with(0, &[0x07, 0x17, 0x1F, 0x0F]);
    let mut cpu = Cpu::new();
    cpu.registers.a = 0x80;
    cpu.step(&mut m).unwrap();
    assert_eq!(cpu.registers.a, 0x01);
    assert_eq!(cpu.registers.f.to_byte(), 0x10);
    cpu.registers.a = 0x00;
    cpu.registers.f = dmg_core::FlagsRegister::from_byte(0x00);
    cpu.step(&mut m).unwrap();
    assert_eq!(cpu.registers.a, 0x00);
    assert_eq!(cpu.registers.f.to_byte(), 0x00);
    cpu.registers.a = 0x01;
    cpu.step(&mut m).unwrap();
    assert_eq!(cpu.registers.a, 0x00);
    assert_eq!(cpu.registers.f.to_byte(), 0x10);
    cpu.registers.a = 0x01;
    cpu.step(&mut m).unwrap();
    assert_eq!(cpu.registers.a, 0x80);
    assert_eq!(cpu.registers.f.to_byte(), 0x10);
}

#[test]
fn complement_and_carry_flag_operations() {
    let mut m = flat_with(0, &[0x2F, 0x37, 0x3F, 0x3F]);
    let mut cpu = Cpu::new();
    cpu.registers.a = 0x35;
    cpu.registers.f = dmg_core::FlagsRegister::from_byte(0x80);
    cpu.step(&mut m).unwrap();
    assert_eq!(cpu.registers.a, 0xCA);
    assert_eq!(cpu.registers.f.to_byte(), 0xE0);
    cpu.step(&mut m).unwrap();
    assert_eq!(cpu.registers.f.to_byte(), 0x90);
    cpu.step(&mut m).unwrap();
    assert_eq!(cpu.registers.f.to_byte(), 0x80);
    cpu.step(&mut m).unwrap();
    assert_eq!(cpu.registers.f.to_byte(), 0x90);
}

#[test]
fn restart_jump_hl_and_stack_pointer_transfers() {
    let mut m = flat_with(0x0100, &[0xEF]);
    m.write(0x0028, 0xF9);
    m.write(0x0029, 0x08);
    m.write(0x002A, 0x00);
    m.write(0x002B, 0xC1);
    m.write(0x002C, 0xE9);
    let mut cpu = Cpu::new();
    cpu.registers.pc = 0x0100;
    cpu.registers.sp = 0xD000;
    cpu.registers.set_hl(0xC200);
    cpu.step(&mut m).unwrap();
    assert_eq!(cpu.registers.pc, 0x0028);
    assert_eq!(cpu.registers.sp, 0xCFFE);
    assert_eq!((m.read(0xCFFF), m.read(0xCFFE)), (0x01, 0x01));
    cpu.step(&mut m).unwrap();
    assert_eq!(cpu.registers.sp, 0xC200);
    cpu.step(&mut m).unwrap();
    assert_eq!((m.read(0xC100), m.read(0xC101)), (0x00, 0xC2));
    cpu.step(&mut m).unwrap();
    assert_eq!(cpu.registers.pc, 0xC200);
}

#[test]
fn decimal_adjust_after_add_and_sub() {
    let mut m = flat_with(0, &[0x80, 0x27, 0x90, 0x27]);
    let mut cpu = Cpu::new();
    cpu.registers.a = 0x45;
    cpu.registers.b = 0x38;
    cpu.step(&mut m).unwrap();
    assert_eq!(cpu.registers.a, 0x7D);
    cpu.step(&mut m).unwrap();
    assert_eq!(cpu.registers.a, 0x83);
    assert_eq!(cpu.registers.f.to_byte(), 0x00);
    cpu.step(&mut m).unwrap();
    assert_eq!(cpu.registers.a, 0x4B);
    assert_eq!(cpu.registers.f.to_byte(), 0x60);
    cpu.step(&mut m).unwrap();
    assert_eq!(cpu.registers.a, 0x45);
    assert_eq!(cpu.registers.f.to_byte(), 0x40);
}

#[test]
fn decimal_adjust_carries_past_99() {
    let mut m = flat_with(0, &[0x80, 0x27]);
    let mut cpu = Cpu::new();
    cpu.registers.a = 0x99;
    cpu.registers.b = 0x01;
    cpu.step(&mut m).unwrap();
    cpu.step(&mut m).unwrap();
    assert_eq!(cpu.registers.a, 0x00);
    assert_eq!(cpu.registers.f.to_byte(), 0x90);
}

#[test]
fn stack_pointer_offsets() {
    let mut m = flat_with(0, &[0xE8, 0x08, 0xF8, 0xFE]);
    let mut cpu = Cpu::new();
    cpu.registers.sp = 0xFFF8;
    cpu.step(&mut m).unwrap();
    assert_eq!(cpu.registers.sp, 0x0000);
    assert_eq!(cpu.registers.f.to_byte(), 0x30);
    cpu.registers.sp = 0xD000;
    cpu.step(&mut m).unwrap();
    assert_eq!(cpu.registers.hl(), 0xCFFE);
    assert_eq!(cpu.registers.sp, 0xD000);
    assert_eq!(cpu.registers.f.to_byte(), 0x00);
    assert_eq!(cpu.registers.pc, 4);
}
