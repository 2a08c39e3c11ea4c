use marty_core::cpu::instruction::{
    AddressingMode, CpuException, ExecutionResult, Instruction, Mnemonic, OperandType,
    SegmentOverride, OPCODE_PREFIX_REP1, OPCODE_PREFIX_REP2,
};
use marty_core::cpu::machine::{CallStackEntry, Cpu, CPU_CALL_STACK_LEN};
use marty_core::cpu::registers::{Register16, Register8};
use marty_core::devices::pc98_graphics::PC98Graphics;
use marty_core::devices::pc98_keyboard::PC98Keyboard;
use marty_core::devices::pc98_system_port::PC98SystemPort;
use marty_core::devices::videocard::ClockingMode;
use marty_core::io::IoBusInterface;

fn bus() -> IoBusInterface {
    IoBusInterface::new(
        PC98SystemPort::new(),
        PC98Keyboard::new(),
        PC98Graphics::new(vec![0u8; 0x2000], ClockingMode::Default, false),
    )
}

fn instruction(
    opcode: u8,
    mnemonic: Mnemonic,
    size: u32,
    operand1_type: OperandType,
    operand2_type: OperandType,
) -> Instruction {
    Instruction {
        opcode,
        prefixes: 0,
        size,
        mnemonic,
        segment_override: SegmentOverride::NoOverride,
        operand1_type,
        operand2_type,
    }
}

fn linear(segment: u16, offset: u16) -> u32 {
    ((segment as u32) * 16 + offset as u32) % 0x10_0000
}

#[test]
fn add_al_imm8_wraps_and_sets_flags() {
    let mut cpu = Cpu::new();
    let mut io = bus();
    cpu.r.ax = 0x12FF;
    cpu.i = instruction(
        0x04,
        Mnemonic::ADD,
        2,
        OperandType::Register8(Register8::AL),
        OperandType::Immediate8(0x01),
    );
    let result = cpu.execute_instruction(&mut io);
    assert_eq!(result, ExecutionResult::Okay);
    assert_eq!(cpu.r.ax, 0x1200);
    assert!(cpu.r.flags.zero);
    assert!(cpu.r.flags.carry);
    assert!(cpu.r.flags.aux_carry);
    assert!(!cpu.r.flags.overflow);
    assert!(!cpu.r.flags.sign);
    assert!(cpu.r.flags.parity);
}

#[test]
fn loop_with_cx_one_falls_through() {
    let mut cpu = Cpu::new();
    let mut io = bus();
    cpu.r.cx = 1;
    cpu.r.ip = 0x0100;
    cpu.r.flags.zero = true;
    cpu.i = instruction(
        0xE2,
        Mnemonic::LOOP,
        2,
        OperandType::Relative8(-2),
        OperandType::NoOperand,
    );
    let before = cpu.r.flags;
    let result = cpu.execute_instruction(&mut io);
    assert_eq!(result, ExecutionResult::Okay);
    assert_eq!(cpu.r.cx, 0);
    assert_eq!(cpu.r.ip, 0x0100);
    assert_eq!(cpu.r.flags, before);
    assert_eq!(cpu.bus.cycles, 2);
    assert_eq!(cpu.bus.flushes, 0);
    // no jump was taken: the caller moves IP past the instruction
    cpu.advance_ip();
    assert_eq!(cpu.r.ip, 0x0102);
    cpu.r.ip = 0xFFFF;
    cpu.advance_ip();
    assert_eq!(cpu.r.ip, 0x0001);
}

#[test]
fn loop_with_cx_two_jumps_back() {
    let mut cpu = Cpu::new();
    let mut io = bus();
    cpu.r.cx = 2;
    cpu.r.ip = 0x0100;
    cpu.i = instruction(
        0xE2,
        Mnemonic::LOOP,
        2,
        OperandType::Relative8(-2),
        OperandType::NoOperand,
    );
    let result = cpu.execute_instruction(&mut io);
    assert_eq!(result, ExecutionResult::OkayJump);
    assert_eq!(cpu.r.cx, 1);
    assert_eq!(cpu.r.ip, 0x0100);
    assert_eq!(cpu.bus.cycles, 6);
    assert_eq!(cpu.bus.flushes, 1);
    assert_eq!(cpu.bus.flushed_at - cpu.bus.suspended_at, 4);
}

#[test]
fn jz_not_taken_when_zero_clear() {
    let mut cpu = Cpu::new();
    let mut io = bus();
    cpu.r.ip = 0x0200;
    cpu.r.flags.zero = false;
    cpu.i = instruction(0x74, Mnemonic::JZ, 2, OperandType::Relative8(0x10), OperandType::NoOperand);
    let result = cpu.execute_instruction(&mut io);
    assert_eq!(result, ExecutionResult::Okay);
    assert_eq!(cpu.r.ip, 0x0200);
    assert_eq!(cpu.bus.cycles, 1);
}

#[test]
fn jz_taken_when_zero_set() {
    let mut cpu = Cpu::new();
    let mut io = bus();
    cpu.r.ip = 0x0200;
    cpu.r.flags.zero = true;
    cpu.i = instruction(0x74, Mnemonic::JZ, 2, OperandType::Relative8(0x10), OperandType::NoOperand);
    let result = cpu.execute_instruction(&mut io);
    assert_eq!(result, ExecutionResult::OkayJump);
    assert_eq!(cpu.r.ip, 0x0212);
    assert_eq!(cpu.bus.cycles, 6);
    assert!(!cpu.bus.fetch_suspended);
}

#[test]
fn jz_taken_backwards_wraps_within_segment() {
    let mut cpu = Cpu::new();
    let mut io = bus();
    cpu.r.ip = 0x0001;
    cpu.r.flags.zero = true;
    cpu.i = instruction(0x74, Mnemonic::JZ, 2, OperandType::Relative8(-8), OperandType::NoOperand);
    let result = cpu.execute_instruction(&mut io);
    assert_eq!(result, ExecutionResult::OkayJump);
    assert_eq!(cpu.r.ip, 0xFFFB);
}

#[test]
fn conditional_jump_truth_table() {
    // (opcode, carry, zero, sign, overflow, parity, taken)
    let cases: Vec<(u8, bool, bool, bool, bool, bool, bool)> = vec![
        (0x70, false, false, false, true, false, true),
        (0x71, false, false, false, true, false, false),
        (0x72, true, false, false, false, false, true),
        (0x73, true, false, false, false, false, false),
        (0x75, false, true, false, false, false, false),
        (0x76, false, true, false, false, false, true),
        (0x77, false, false, false, false, false, true),
        (0x77, true, false, false, false, false, false),
        (0x78, false, false, true, false, false, true),
        (0x79, false, false, true, false, false, false),
        (0x7A, false, false, false, false, true, true),
        (0x7B, false, false, false, false, true, false),
        (0x7C, false, false, true, false, false, true),
        (0x7C, false, false, true, true, false, false),
        (0x7D, false, false, true, true, false, true),
        (0x7E, false, true, false, false, false, true),
        (0x7E, false, false, false, true, false, true),
        (0x7F, false, false, true, true, false, true),
        (0x7F, false, true, true, true, false, false),
        (0x64, false, true, false, false, false, true),
    ];
    for (opcode, carry, zero, sign, overflow, parity, taken) in cases {
        let mut cpu = Cpu::new();
        let mut io = bus();
        cpu.r.flags.carry = carry;
        cpu.r.flags.zero = zero;
        cpu.r.flags.sign = sign;
        cpu.r.flags.overflow = overflow;
        cpu.r.flags.parity = parity;
        cpu.i = instruction(
            opcode,
            Mnemonic::JZ,
            2,
            OperandType::Relative8(4),
            OperandType::NoOperand,
        );
        let result = cpu.execute_instruction(&mut io);
        if taken {
            assert_eq!(result, ExecutionResult::OkayJump, "opcode {:#x}", opcode);
            assert_eq!(cpu.r.ip, 6);
        } else {
            assert_eq!(result, ExecutionResult::Okay, "opcode {:#x}", opcode);
            assert_eq!(cpu.r.ip, 0);
        }
    }
}

#[test]
fn inc_and_dec_keep_carry() {
    for carry in [false, true] {
        for value in [0x0000u16, 0x00FF, 0x7FFF, 0x8000, 0xFFFF] {
            let mut cpu = Cpu::new();
            let mut io = bus();
            cpu.r.bx = value;
            cpu.r.flags.carry = carry;
            cpu.i = instruction(
                0x43,
                Mnemonic::INC,
                1,
                OperandType::Register16(Register16::BX),
                OperandType::NoOperand,
            );
            assert_eq!(cpu.execute_instruction(&mut io), ExecutionResult::Okay);
            assert_eq!(cpu.r.bx, value.wrapping_add(1));
            assert_eq!(cpu.r.flags.carry, carry);
            assert_eq!(cpu.r.flags.zero, value == 0xFFFF);
            assert_eq!(cpu.r.flags.overflow, value == 0x7FFF);

            cpu.r.bx = value;
            cpu.i = instruction(
                0x4B,
                Mnemonic::DEC,
                1,
                OperandType::Register16(Register16::BX),
                OperandType::NoOperand,
            );
            assert_eq!(cpu.execute_instruction(&mut io), ExecutionResult::Okay);
            assert_eq!(cpu.r.bx, value.wrapping_sub(1));
            assert_eq!(cpu.r.flags.carry, carry);
            assert_eq!(cpu.r.flags.overflow, value == 0x8000);
        }
    }
}

#[test]
fn inc_dec_byte_in_group4_keep_carry() {
    for carry in [false, true] {
        let mut cpu = Cpu::new();
        let mut io = bus();
        cpu.r.cx = 0x00FF;
        cpu.r.flags.carry = carry;
        cpu.i = instruction(
            0xFE,
            Mnemonic::INC,
            2,
            OperandType::Register8(Register8::CL),
            OperandType::NoOperand,
        );
        assert_eq!(cpu.execute_instruction(&mut io), ExecutionResult::Okay);
        assert_eq!(cpu.r.cx, 0x0000);
        assert!(cpu.r.flags.zero);
        assert_eq!(cpu.r.flags.carry, carry);
        cpu.i.mnemonic = Mnemonic::DEC;
        assert_eq!(cpu.execute_instruction(&mut io), ExecutionResult::Okay);
        assert_eq!(cpu.r.cx, 0x00FF);
        assert!(cpu.r.flags.sign);
        assert_eq!(cpu.r.flags.carry, carry);
    }
}

#[test]
fn cmp_and_test_leave_operands_alone() {
    let mut cpu = Cpu::new();
    let mut io = bus();
    cpu.r.ds = 0x1000;
    cpu.r.bx = 0x0020;
    cpu.r.ax = 0x1234;
    let addr = linear(0x1000, 0x0020);
    cpu.poke_u8(addr, 0x34);
    cpu.poke_u8(addr + 1, 0x12);
    cpu.i = instruction(
        0x39,
        Mnemonic::CMP,
        2,
        OperandType::AddressingMode(AddressingMode::Bx),
        OperandType::Register16(Register16::AX),
    );
    assert_eq!(cpu.execute_instruction(&mut io), ExecutionResult::Okay);
    assert!(cpu.r.flags.zero);
    assert!(!cpu.r.flags.carry);
    assert_eq!(cpu.peek_u16(addr), 0x1234);
    assert_eq!(cpu.r.ax, 0x1234);

    cpu.i = instruction(
        0x84,
        Mnemonic::TEST,
        2,
        OperandType::AddressingMode(AddressingMode::Bx),
        OperandType::Register8(Register8::AH),
    );
    assert_eq!(cpu.execute_instruction(&mut io), ExecutionResult::Okay);
    assert_eq!(cpu.peek_u8(addr), 0x34);
    assert_eq!(cpu.r.ax, 0x1234);
    // 0x34 & 0x12 == 0x10
    assert!(!cpu.r.flags.zero);
    assert!(!cpu.r.flags.carry);
    assert!(!cpu.r.flags.overflow);
    assert!(!cpu.r.flags.parity);

    cpu.i = instruction(
        0x80,
        Mnemonic::CMP,
        3,
        OperandType::AddressingMode(AddressingMode::Bx),
        OperandType::Immediate8(0x35),
    );
    assert_eq!(cpu.execute_instruction(&mut io), ExecutionResult::Okay);
    assert_eq!(cpu.peek_u8(addr), 0x34);
    assert!(cpu.r.flags.carry);
    assert!(cpu.r.flags.sign);
}

#[test]
fn div_by_zero_raises_divide_error_and_keeps_registers() {
    let mut cpu = Cpu::new();
    let mut io = bus();
    cpu.r.ax = 0x1234;
    cpu.r.dx = 0x5678;
    cpu.r.bx = 0x0000;
    cpu.i = instruction(
        0xF6,
        Mnemonic::DIV,
        2,
        OperandType::Register8(Register8::BL),
        OperandType::NoOperand,
    );
    let before = cpu.r;
    assert_eq!(
        cpu.execute_instruction(&mut io),
        ExecutionResult::ExceptionError(CpuException::DivideError)
    );
    assert_eq!(cpu.r, before);

    cpu.i = instruction(
        0xF7,
        Mnemonic::DIV,
        2,
        OperandType::Register16(Register16::BX),
        OperandType::NoOperand,
    );
    assert_eq!(
        cpu.execute_instruction(&mut io),
        ExecutionResult::ExceptionError(CpuException::DivideError)
    );
    assert_eq!(cpu.r, before);

    cpu.i.mnemonic = Mnemonic::IDIV;
    assert_eq!(
        cpu.execute_instruction(&mut io),
        ExecutionResult::ExceptionError(CpuException::DivideError)
    );
    assert_eq!(cpu.r, before);
}

#[test]
fn div_quotient_overflow_raises_divide_error() {
    let mut cpu = Cpu::new();
    let mut io = bus();
    cpu.r.ax = 0x0400;
    cpu.r.bx = 0x0002;
    cpu.i = instruction(
        0xF6,
        Mnemonic::DIV,
        2,
        OperandType::Register8(Register8::BL),
        OperandType::NoOperand,
    );
    let before = cpu.r;
    assert_eq!(
        cpu.execute_instruction(&mut io),
        ExecutionResult::ExceptionError(CpuException::DivideError)
    );
    assert_eq!(cpu.r, before);
}

#[test]
fn div_and_idiv_store_quotient_and_remainder() {
    let mut cpu = Cpu::new();
    let mut io = bus();
    cpu.r.ax = 1000;
    cpu.r.bx = 7;
    cpu.i = instruction(
        0xF6,
        Mnemonic::DIV,
        2,
        OperandType::Register8(Register8::BL),
        OperandType::NoOperand,
    );
    assert_eq!(cpu.execute_instruction(&mut io), ExecutionResult::Okay);
    // 1000 = 142 * 7 + 6
    assert_eq!(cpu.r.ax, (6 << 8) | 142);

    // -1000 / 9 = -111 remainder -1
    cpu.r.ax = (-1000i16) as u16;
    cpu.r.bx = 9;
    cpu.i.mnemonic = Mnemonic::IDIV;
    assert_eq!(cpu.execute_instruction(&mut io), ExecutionResult::Okay);
    assert_eq!(cpu.r.ax & 0xFF, (-111i8) as u8 as u16);
    assert_eq!(cpu.r.ax >> 8, (-1i8) as u8 as u16);

    // 0x0012_3456 / 0x1000 = 0x123 remainder 0x456
    cpu.r.dx = 0x0012;
    cpu.r.ax = 0x3456;
    cpu.r.bx = 0x1000;
    cpu.i = instruction(
        0xF7,
        Mnemonic::DIV,
        2,
        OperandType::Register16(Register16::BX),
        OperandType::NoOperand,
    );
    assert_eq!(cpu.execute_instruction(&mut io), ExecutionResult::Okay);
    assert_eq!(cpu.r.ax, 0x0123);
    assert_eq!(cpu.r.dx, 0x0456);

    // -100000 / 300 = -333 remainder -100
    let dividend = (-100000i32) as u32;
    cpu.r.dx = (dividend >> 16) as u16;
    cpu.r.ax = dividend as u16;
    cpu.r.bx = 300;
    cpu.i.mnemonic = Mnemonic::IDIV;
    assert_eq!(cpu.execute_instruction(&mut io), ExecutionResult::Okay);
    assert_eq!(cpu.r.ax, (-333i16) as u16);
    assert_eq!(cpu.r.dx, (-100i16) as u16);
}

#[test]
fn idiv_quotient_of_minus_128_is_a_divide_error() {
    let mut cpu = Cpu::new();
    let mut io = bus();
    cpu.r.ax = (-128i16) as u16;
    cpu.r.bx = 1;
    cpu.i = instruction(
        0xF6,
        Mnemonic::IDIV,
        2,
        OperandType::Register8(Register8::BL),
        OperandType::NoOperand,
    );
    let before = cpu.r;
    assert_eq!(
        cpu.execute_instruction(&mut io),
        ExecutionResult::ExceptionError(CpuException::DivideError)
    );
    assert_eq!(cpu.r, before);
    cpu.r.ax = (-127i16) as u16;
    assert_eq!(cpu.execute_instruction(&mut io), ExecutionResult::Okay);
    assert_eq!(cpu.r.ax, 0x0081);
}

#[test]
fn mul_and_imul_set_carry_and_overflow_when_high_half_is_used() {
    let mut cpu = Cpu::new();
    let mut io = bus();
    cpu.r.ax = 0x0010;
    cpu.r.bx = 0x0010;
    cpu.i = instruction(
        0xF6,
        Mnemonic::MUL,
        2,
        OperandType::Register8(Register8::BL),
        OperandType::NoOperand,
    );
    assert_eq!(cpu.execute_instruction(&mut io), ExecutionResult::Okay);
    assert_eq!(cpu.r.ax, 0x0100);
    assert!(cpu.r.flags.carry && cpu.r.flags.overflow);

    cpu.r.ax = 0x0003;
    cpu.r.bx = 0x0005;
    assert_eq!(cpu.execute_instruction(&mut io), ExecutionResult::Okay);
    assert_eq!(cpu.r.ax, 15);
    assert!(!cpu.r.flags.carry && !cpu.r.flags.overflow);

    // -2 * 3 = -6 fits a signed byte
    cpu.r.ax = 0x00FE;
    cpu.r.bx = 0x0003;
    cpu.i.mnemonic = Mnemonic::IMUL;
    assert_eq!(cpu.execute_instruction(&mut io), ExecutionResult::Okay);
    assert_eq!(cpu.r.ax, (-6i16) as u16);
    assert!(!cpu.r.flags.carry && !cpu.r.flags.overflow);

    // 0x1234 * 0x100 = 0x12_3400
    cpu.r.ax = 0x1234;
    cpu.r.bx = 0x0100;
    cpu.i = instruction(
        0xF7,
        Mnemonic::MUL,
        2,
        OperandType::Register16(Register16::BX),
        OperandType::NoOperand,
    );
    assert_eq!(cpu.execute_instruction(&mut io), ExecutionResult::Okay);
    assert_eq!(cpu.r.ax, 0x3400);
    assert_eq!(cpu.r.dx, 0x0012);
    assert!(cpu.r.flags.carry && cpu.r.flags.overflow);

    // -300 * 200 = -60000
    cpu.r.ax = (-300i16) as u16;
    cpu.r.bx = 200;
    cpu.i.mnemonic = Mnemonic::IMUL;
    assert_eq!(cpu.execute_instruction(&mut io), ExecutionResult::Okay);
    let product = (-60000i32) as u32;
    assert_eq!(cpu.r.ax, product as u16);
    assert_eq!(cpu.r.dx, (product >> 16) as u16);
    assert!(cpu.r.flags.carry && cpu.r.flags.overflow);
}

#[test]
fn aam_with_zero_raises_divide_error_and_keeps_ax() {
    let mut cpu = Cpu::new();
    let mut io = bus();
    cpu.r.ax = 0x1234;
    cpu.i = instruction(0xD4, Mnemonic::AAM, 2, OperandType::Immediate8(0), OperandType::NoOperand);
    let before = cpu.r;
    assert_eq!(
        cpu.execute_instruction(&mut io),
        ExecutionResult::ExceptionError(CpuException::DivideError)
    );
    assert_eq!(cpu.r, before);
}

#[test]
fn aam_and_aad_split_and_join_digits() {
    let mut cpu = Cpu::new();
    let mut io = bus();
    cpu.r.ax = 0x0037; // 55
    cpu.i = instruction(0xD4, Mnemonic::AAM, 2, OperandType::Immediate8(10), OperandType::NoOperand);
    assert_eq!(cpu.execute_instruction(&mut io), ExecutionResult::Okay);
    assert_eq!(cpu.r.ax, 0x0505);
    cpu.i = instruction(0xD5, Mnemonic::AAD, 2, OperandType::Immediate8(10), OperandType::NoOperand);
    assert_eq!(cpu.execute_instruction(&mut io), ExecutionResult::Okay);
    assert_eq!(cpu.r.ax, 0x0037);
}

#[test]
fn daa_das_aaa_aas_adjust_the_accumulator() {
    let mut cpu = Cpu::new();
    let mut io = bus();
    // 0x19 + 0x28 = 0x41 with an auxiliary carry; DAA gives 0x47
    cpu.r.ax = 0x0041;
    cpu.r.flags.aux_carry = true;
    cpu.i = instruction(0x27, Mnemonic::DAA, 1, OperandType::NoOperand, OperandType::NoOperand);
    assert_eq!(cpu.execute_instruction(&mut io), ExecutionResult::Okay);
    assert_eq!(cpu.r.ax, 0x0047);
    assert!(!cpu.r.flags.carry);
    assert!(cpu.r.flags.aux_carry);

    // 0x99 + 0x01 = 0x9A; DAA gives 0x00 with carry
    cpu.r.ax = 0x009A;
    cpu.r.flags.aux_carry = false;
    cpu.r.flags.carry = false;
    assert_eq!(cpu.execute_instruction(&mut io), ExecutionResult::Okay);
    assert_eq!(cpu.r.ax, 0x0000);
    assert!(cpu.r.flags.carry);
    assert!(cpu.r.flags.zero);

    // 0x47 - 0x28 = 0x1F; DAS gives 0x19
    cpu.r.ax = 0x001F;
    cpu.r.flags.aux_carry = true;
    cpu.r.flags.carry = false;
    cpu.i = instruction(0x2F, Mnemonic::DAS, 1, OperandType::NoOperand, OperandType::NoOperand);
    assert_eq!(cpu.execute_instruction(&mut io), ExecutionResult::Okay);
    assert_eq!(cpu.r.ax, 0x0019);
    assert!(!cpu.r.flags.carry);

    // AAA: AL = 0x0F -> AL = 5, AH + 1
    cpu.r.ax = 0x020F;
    cpu.r.flags.aux_carry = false;
    cpu.i = instruction(0x37, Mnemonic::AAA, 1, OperandType::NoOperand, OperandType::NoOperand);
    assert_eq!(cpu.execute_instruction(&mut io), ExecutionResult::Okay);
    assert_eq!(cpu.r.ax, 0x0305);
    assert!(cpu.r.flags.carry && cpu.r.flags.aux_carry);

    // AAS: AL = 0x0F -> AL = 9, AH - 1
    cpu.r.ax = 0x020F;
    cpu.r.flags.aux_carry = false;
    cpu.i = instruction(0x3F, Mnemonic::AAS, 1, OperandType::NoOperand, OperandType::NoOperand);
    assert_eq!(cpu.execute_instruction(&mut io), ExecutionResult::Okay);
    assert_eq!(cpu.r.ax, 0x0109);
    assert!(cpu.r.flags.carry && cpu.r.flags.aux_carry);
}

#[test]
fn call_stack_never_exceeds_its_bound() {
    let mut cpu = Cpu::new();
    let mut io = bus();
    cpu.r.ss = 0x2000;
    cpu.r.sp = 0x1000;
    cpu.i = instruction(
        0xE8,
        Mnemonic::CALL,
        3,
        OperandType::Relative16(0x0010),
        OperandType::NoOperand,
    );
    let mut origins: Vec<u16> = Vec::new();
    for k in 0..(CPU_CALL_STACK_LEN + 3) {
        origins.push(cpu.r.ip);
        assert_eq!(cpu.execute_instruction(&mut io), ExecutionResult::OkayJump);
        assert!(cpu.call_stack.len() <= CPU_CALL_STACK_LEN);
        assert_eq!(cpu.call_stack.len(), std::cmp::min(k + 1, CPU_CALL_STACK_LEN));
    }
    assert_eq!(cpu.call_stack.len(), CPU_CALL_STACK_LEN);
    // the three oldest entries are gone, the others are in order
    for k in 0..CPU_CALL_STACK_LEN {
        assert_eq!(cpu.call_stack[k], CallStackEntry::Call(0, origins[k + 3], 0x0010));
    }
}

#[test]
fn far_calls_through_group5_keep_the_call_stack_bounded() {
    let mut cpu = Cpu::new();
    let mut io = bus();
    cpu.r.ss = 0x2000;
    cpu.r.sp = 0x8000;
    cpu.i = instruction(
        0xFF,
        Mnemonic::CALLF,
        5,
        OperandType::FarAddress(0x3000, 0x0040),
        OperandType::NoOperand,
    );
    for _ in 0..(CPU_CALL_STACK_LEN + 3) {
        assert_eq!(cpu.execute_instruction(&mut io), ExecutionResult::OkayJump);
        assert!(cpu.call_stack.len() <= CPU_CALL_STACK_LEN);
    }
    assert_eq!(cpu.call_stack.len(), CPU_CALL_STACK_LEN);
    assert_eq!(
        cpu.call_stack[CPU_CALL_STACK_LEN - 1],
        CallStackEntry::CallF(0x3000, 0x0040, 0x3000, 0x0040)
    );
    assert_eq!(cpu.r.cs, 0x3000);
    assert_eq!(cpu.r.ip, 0x0040);
}

#[test]
fn byte_jmp_forces_the_high_byte_of_ip() {
    for low in 0..=255u8 {
        let mut cpu = Cpu::new();
        let mut io = bus();
        cpu.r.bx = low as u16;
        cpu.r.ip = 0x1234;
        cpu.i = instruction(
            0xFE,
            Mnemonic::JMP,
            2,
            OperandType::Register8(Register8::BL),
            OperandType::NoOperand,
        );
        assert_eq!(cpu.execute_instruction(&mut io), ExecutionResult::OkayJump);
        assert_eq!(cpu.r.ip, 0xFF00 | low as u16);
    }
}

#[test]
fn byte_call_through_memory_forces_the_high_byte_of_ip() {
    for low in [0x00u8, 0x01, 0x7F, 0x80, 0xFE, 0xFF] {
        let mut cpu = Cpu::new();
        let mut io = bus();
        cpu.r.ds = 0x0100;
        cpu.r.si = 0x0010;
        cpu.r.ss = 0x0200;
        cpu.r.sp = 0x0100;
        cpu.r.ip = 0x12FE;
        cpu.poke_u8(linear(0x0100, 0x0010), low);
        cpu.i = instruction(
            0xFE,
            Mnemonic::CALL,
            2,
            OperandType::AddressingMode(AddressingMode::Si),
            OperandType::NoOperand,
        );
        assert_eq!(cpu.execute_instruction(&mut io), ExecutionResult::OkayJump);
        assert_eq!(cpu.r.ip, 0xFF00 | low as u16);
        assert_eq!(cpu.r.sp, 0x00FE);
        // only the low byte of the return offset 0x1300 is pushed
        assert_eq!(cpu.peek_u8(linear(0x0200, 0x00FE)), 0x00);
    }
}

#[test]
fn byte_call_through_register_forces_the_high_byte_of_ip() {
    let mut cpu = Cpu::new();
    let mut io = bus();
    cpu.r.ss = 0x0200;
    cpu.r.sp = 0x0100;
    cpu.r.dx = 0x4321;
    cpu.r.ip = 0x12FE;
    cpu.i = instruction(
        0xFE,
        Mnemonic::CALL,
        2,
        OperandType::Register8(Register8::DH),
        OperandType::NoOperand,
    );
    assert_eq!(cpu.execute_instruction(&mut io), ExecutionResult::OkayJump);
    assert_eq!(cpu.r.ip, 0xFF43);
    assert_eq!(cpu.r.dx, 0x4321);
    assert_eq!(cpu.r.sp, 0x00FE);
    // only the low byte of the return offset 0x1300 is pushed
    assert_eq!(cpu.peek_u8(linear(0x0200, 0x00FE)), 0x00);
    assert_eq!(cpu.bus.cycles, 4 + 4);
    for low in 0..=255u8 {
        let mut cpu = Cpu::new();
        cpu.r.ss = 0x0200;
        cpu.r.sp = 0x0100;
        cpu.r.ax = 0x1200 | low as u16;
        cpu.i = instruction(
            0xFE,
            Mnemonic::CALL,
            2,
            OperandType::Register8(Register8::AL),
            OperandType::NoOperand,
        );
        assert_eq!(cpu.execute_instruction(&mut io), ExecutionResult::OkayJump);
        assert_eq!(cpu.r.ip, 0xFF00 | low as u16);
    }
}

#[test]
fn byte_call_without_a_byte_operand_does_nothing() {
    let mut cpu = Cpu::new();
    let mut io = bus();
    cpu.r.ip = 0x0100;
    cpu.r.sp = 0x0100;
    cpu.i = instruction(
        0xFE,
        Mnemonic::CALL,
        2,
        OperandType::NoOperand,
        OperandType::NoOperand,
    );
    assert!(cpu.can_execute());
    let before = cpu.r;
    assert_eq!(cpu.execute_instruction(&mut io), ExecutionResult::OkayJump);
    assert_eq!(cpu.r, before);
    assert_eq!(cpu.bus.cycles, 0);
}

#[test]
fn unsupported_mnemonics_in_groups_are_reported() {
    for opcode in [0xF6u8, 0xF7, 0xFE, 0xFF] {
        let mut cpu = Cpu::new();
        let mut io = bus();
        cpu.i = instruction(
            opcode,
            Mnemonic::MOV,
            2,
            OperandType::Register8(Register8::AL),
            OperandType::NoOperand,
        );
        assert_eq!(cpu.execute_instruction(&mut io), ExecutionResult::UnsupportedOpcode(opcode));
    }
    for opcode in [0xF0u8, 0xF2, 0xF3] {
        let mut cpu = Cpu::new();
        let mut io = bus();
        cpu.i = instruction(
            opcode,
            Mnemonic::LOCK,
            1,
            OperandType::NoOperand,
            OperandType::NoOperand,
        );
        assert_eq!(cpu.execute_instruction(&mut io), ExecutionResult::UnsupportedOpcode(opcode));
    }
}

#[test]
fn halt_with_interrupts_off_is_reported_as_halt() {
    let mut cpu = Cpu::new();
    let mut io = bus();
    cpu.i = instruction(0xF4, Mnemonic::HLT, 1, OperandType::NoOperand, OperandType::NoOperand);
    assert_eq!(cpu.execute_instruction(&mut io), ExecutionResult::Halt);
    assert!(cpu.halted);
    assert_eq!(cpu.bus.cycles, 2);

    let mut cpu = Cpu::new();
    cpu.r.flags.interrupt = true;
    cpu.i = instruction(0xF4, Mnemonic::HLT, 1, OperandType::NoOperand, OperandType::NoOperand);
    assert_eq!(cpu.execute_instruction(&mut io), ExecutionResult::Okay);
    assert!(cpu.halted);
}

#[test]
fn sti_inhibits_interrupts_for_one_instruction() {
    let mut cpu = Cpu::new();
    let mut io = bus();
    cpu.i = instruction(0xFB, Mnemonic::STI, 1, OperandType::NoOperand, OperandType::NoOperand);
    assert_eq!(cpu.execute_instruction(&mut io), ExecutionResult::Okay);
    assert!(cpu.r.flags.interrupt);
    assert!(cpu.interrupt_inhibit);
    cpu.i = instruction(0x90, Mnemonic::NOP, 1, OperandType::NoOperand, OperandType::NoOperand);
    assert_eq!(cpu.execute_instruction(&mut io), ExecutionResult::Okay);
    assert!(cpu.r.flags.interrupt);
    assert!(!cpu.interrupt_inhibit);
}

#[test]
fn opcode_zero_runs_are_counted() {
    let mut cpu = Cpu::new();
    let mut io = bus();
    cpu.i = instruction(
        0x00,
        Mnemonic::ADD,
        2,
        OperandType::Register8(Register8::AL),
        OperandType::Register8(Register8::AL),
    );
    for k in 1..=7u32 {
        assert_eq!(cpu.execute_instruction(&mut io), ExecutionResult::Okay);
        assert_eq!(cpu.opcode0_counter, k);
        assert!(!cpu.halted);
    }
    cpu.i = instruction(0x90, Mnemonic::NOP, 1, OperandType::NoOperand, OperandType::NoOperand);
    assert_eq!(cpu.execute_instruction(&mut io), ExecutionResult::Okay);
    assert_eq!(cpu.opcode0_counter, 0);
}

fn rep_movsb() -> Instruction {
    Instruction {
        opcode: 0xA4,
        prefixes: OPCODE_PREFIX_REP2,
        size: 2,
        mnemonic: Mnemonic::MOVSB,
        segment_override: SegmentOverride::NoOverride,
        operand1_type: OperandType::NoOperand,
        operand2_type: OperandType::NoOperand,
    }
}

fn movs_machine() -> Cpu {
    let mut cpu = Cpu::new();
    cpu.r.cs = 0x0050;
    cpu.r.ip = 0x0100;
    cpu.r.ds = 0x1000;
    cpu.r.es = 0x2000;
    cpu.r.si = 0x0010;
    cpu.r.di = 0x0020;
    cpu.r.cx = 5;
    for k in 0..5u32 {
        cpu.poke_u8(linear(0x1000, 0x0010) + k, 0xA0 + k as u8);
    }
    cpu.i = rep_movsb();
    cpu
}

#[test]
fn rep_movsb_copies_one_element_per_call() {
    let mut cpu = movs_machine();
    let mut io = bus();
    for k in 1..=4u16 {
        assert_eq!(cpu.execute_instruction(&mut io), ExecutionResult::OkayRep);
        assert_eq!(cpu.r.cx, 5 - k);
        assert_eq!(cpu.r.si, 0x0010 + k);
        assert_eq!(cpu.r.di, 0x0020 + k);
        assert!(cpu.in_rep);
    }
    assert_eq!(cpu.execute_instruction(&mut io), ExecutionResult::Okay);
    assert_eq!(cpu.r.cx, 0);
    assert!(!cpu.in_rep);
    for k in 0..5u32 {
        assert_eq!(cpu.peek_u8(linear(0x2000, 0x0020) + k), 0xA0 + k as u8);
    }
    assert_eq!(cpu.r.ip, 0x0100);
}

#[test]
fn rep_movsb_resumes_after_an_interrupt_as_if_uninterrupted() {
    let mut io = bus();
    let mut straight = movs_machine();
    while straight.execute_instruction(&mut io) == ExecutionResult::OkayRep {}

    let mut cpu = movs_machine();
    assert_eq!(cpu.execute_instruction(&mut io), ExecutionResult::OkayRep);
    assert_eq!(cpu.execute_instruction(&mut io), ExecutionResult::OkayRep);
    assert_eq!(cpu.r.cx, 3);
    // an interrupt arrives: the state of the repetition is saved
    cpu.save_rep_state();
    assert!(!cpu.in_rep);
    assert_eq!(cpu.rep_state.len(), 1);
    // the handler uses the registers of the string instruction for its own ends
    cpu.r.si = 0xDEAD;
    cpu.r.di = 0xBEEF;
    cpu.r.es = 0x7777;
    cpu.r.ds = 0x6666;
    cpu.r.cx = 0x0042;
    // back at the instruction
    assert_eq!(cpu.execute_instruction(&mut io), ExecutionResult::OkayRep);
    assert_eq!(cpu.rep_state.len(), 0);
    assert_eq!(cpu.r.cx, 2);
    assert_eq!(cpu.r.si, 0x0013);
    assert_eq!(cpu.r.di, 0x0023);
    assert_eq!(cpu.r.es, 0x2000);
    assert_eq!(cpu.r.ds, 0x1000);
    while cpu.execute_instruction(&mut io) == ExecutionResult::OkayRep {}

    assert_eq!(cpu.r, straight.r);
    assert_eq!(cpu.in_rep, straight.in_rep);
    assert_eq!(cpu.rep_type, straight.rep_type);
    assert_eq!(cpu.memory, straight.memory);
    assert_eq!(cpu.bus, straight.bus);
    assert_eq!(cpu.rep_state.len(), 0);
}

#[test]
fn repe_cmpsb_stops_at_the_first_difference() {
    let mut cpu = Cpu::new();
    let mut io = bus();
    cpu.r.ds = 0x1000;
    cpu.r.es = 0x2000;
    cpu.r.cx = 10;
    for k in 0..10u32 {
        cpu.poke_u8(linear(0x1000, 0) + k, k as u8);
        cpu.poke_u8(linear(0x2000, 0) + k, if k == 3 { 0xFF } else { k as u8 });
    }
    cpu.i = Instruction {
        opcode: 0xA6,
        prefixes: OPCODE_PREFIX_REP2,
        size: 2,
        mnemonic: Mnemonic::CMPSB,
        segment_override: SegmentOverride::NoOverride,
        operand1_type: OperandType::NoOperand,
        operand2_type: OperandType::NoOperand,
    };
    let mut calls = 0;
    while cpu.execute_instruction(&mut io) == ExecutionResult::OkayRep {
        calls += 1;
    }
    assert_eq!(calls, 3);
    assert_eq!(cpu.r.cx, 6);
    assert_eq!(cpu.r.si, 4);
    assert_eq!(cpu.r.di, 4);
    assert!(!cpu.r.flags.zero);
    assert!(!cpu.in_rep);
}

#[test]
fn repne_scasb_stops_at_the_first_match() {
    let mut cpu = Cpu::new();
    let mut io = bus();
    cpu.r.es = 0x2000;
    cpu.r.di = 0x0100;
    cpu.r.cx = 8;
    cpu.r.ax = 0x0042;
    cpu.poke_u8(linear(0x2000, 0x0102), 0x42);
    cpu.i = Instruction {
        opcode: 0xAE,
        prefixes: OPCODE_PREFIX_REP1,
        size: 2,
        mnemonic: Mnemonic::SCASB,
        segment_override: SegmentOverride::NoOverride,
        operand1_type: OperandType::NoOperand,
        operand2_type: OperandType::NoOperand,
    };
    while cpu.execute_instruction(&mut io) == ExecutionResult::OkayRep {}
    assert_eq!(cpu.r.di, 0x0103);
    assert_eq!(cpu.r.cx, 5);
    assert!(cpu.r.flags.zero);
}

#[test]
fn string_ops_step_down_when_direction_is_set() {
    let mut cpu = Cpu::new();
    let mut io = bus();
    cpu.r.es = 0x2000;
    cpu.r.di = 0x0000;
    cpu.r.ax = 0xBEEF;
    cpu.r.flags.direction = true;
    cpu.i = instruction(0xAB, Mnemonic::STOSW, 1, OperandType::NoOperand, OperandType::NoOperand);
    assert_eq!(cpu.execute_instruction(&mut io), ExecutionResult::Okay);
    assert_eq!(cpu.r.di, 0xFFFE);
    assert_eq!(cpu.peek_u16(linear(0x2000, 0)), 0xBEEF);
}

#[test]
fn rep_prefix_on_other_instructions_is_ignored() {
    let mut cpu = Cpu::new();
    let mut io = bus();
    cpu.r.cx = 3;
    cpu.i = instruction(0x90, Mnemonic::NOP, 1, OperandType::NoOperand, OperandType::NoOperand);
    cpu.i.prefixes = OPCODE_PREFIX_REP2;
    assert_eq!(cpu.execute_instruction(&mut io), ExecutionResult::Okay);
    assert!(!cpu.in_rep);
    assert_eq!(cpu.r.cx, 3);
}
