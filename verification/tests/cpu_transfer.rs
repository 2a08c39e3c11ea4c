use marty_core::cpu::instruction::{
    segment_override, segment_to_register, AddressingMode, ExecutionResult, Instruction, Mnemonic,
    OperandType, ReadWriteFlag, SegmentOverride, OPCODE_PREFIX_REP2,
};
use marty_core::cpu::bus::{calc_linear_address, next_linear_address};
use marty_core::cpu::exec_flow::{offset_by, test_condition};
use marty_core::cpu::machine::{CallStackEntry, Cpu, RepState};
use marty_core::cpu::opcode::{op_group, segment_register_of, OpGroup};
use marty_core::cpu::operand::{relative_offset_u16, word_of_displacement};
use marty_core::cpu::registers::{Flags, Register16, Register8, Segment};
use marty_core::devices::pc98_graphics::PC98Graphics;
use marty_core::devices::pc98_keyboard::PC98Keyboard;
use marty_core::devices::pc98_system_port::PC98SystemPort;
use marty_core::devices::videocard::ClockingMode;
use marty_core::io::IoBusInterface;

fn new_bus() -> IoBusInterface {
    IoBusInterface::new(
        PC98SystemPort::new(),
        PC98Keyboard::new(),
        PC98Graphics::new(vec![0u8; 0x2000], ClockingMode::Default, false),
    )
}

fn inst(
    opcode: u8,
    mnemonic: Mnemonic,
    size: u32,
    operand1_type: OperandType,
    operand2_type: OperandType,
) -> Instruction {
    Instruction {
        opcode,
        prefixes: 0,
        size,
        mnemonic,
        segment_override: SegmentOverride::NoOverride,
        operand1_type,
        operand2_type,
    }
}

fn run(cpu: &mut Cpu, io: &mut IoBusInterface, i: Instruction) -> ExecutionResult {
    cpu.i = i;
    assert!(cpu.can_execute());
    cpu.execute_instruction(io)
}

fn lin(segment: u16, offset: u16) -> u32 {
    ((segment as u32) << 4) + offset as u32
}

const NONE: OperandType = OperandType::NoOperand;

#[test]
fn address_arithmetic() {
    assert_eq!(calc_linear_address(0x1234, 0x0010), 0x12350);
    assert_eq!(calc_linear_address(0xFFFF, 0x0010), 0x00000);
    assert_eq!(calc_linear_address(0xFFFF, 0xFFFF), 0x0FFEF);
    assert_eq!(next_linear_address(0xFFFFF), 0);
    assert_eq!(next_linear_address(0x12345), 0x12346);
    assert_eq!(relative_offset_u16(0x0010, -0x20), 0xFFF0);
    assert_eq!(relative_offset_u16(0xFFF0, 0x20), 0x0010);
    assert_eq!(relative_offset_u16(0x1000, 0), 0x1000);
    assert_eq!(word_of_displacement(-1), 0xFFFF);
    assert_eq!(word_of_displacement(0x7FFF), 0x7FFF);
    assert_eq!(word_of_displacement(-0x8000), 0x8000);
    assert_eq!(offset_by(0xFFFE, 0x0001, 3), 0x0002);
    assert_eq!(offset_by(0x0100, 0xFFFE, 2), 0x0100);
    assert_eq!(segment_override(SegmentOverride::NoOverride, Segment::SS), Segment::SS);
    assert_eq!(segment_override(SegmentOverride::ES, Segment::SS), Segment::ES);
    assert_eq!(segment_to_register(Segment::CS), Register16::CS);
    assert_eq!(segment_register_of(0x0E), Register16::CS);
    assert_eq!(segment_register_of(0x1F), Register16::DS);
}

#[test]
fn opcode_groups() {
    assert_eq!(op_group(0x00), OpGroup::Alu8);
    assert_eq!(op_group(0x35), OpGroup::Alu16);
    assert_eq!(op_group(0x3C), OpGroup::Cmp8);
    assert_eq!(op_group(0x26), OpGroup::SegmentPrefix);
    assert_eq!(op_group(0x1E), OpGroup::PushSegment);
    assert_eq!(op_group(0x3F), OpGroup::Aas);
    assert_eq!(op_group(0x6F), OpGroup::JumpIf);
    assert_eq!(op_group(0x97), OpGroup::XchgAx);
    assert_eq!(op_group(0xC0), OpGroup::RetnRelease);
    assert_eq!(op_group(0xC1), OpGroup::Retn);
    assert_eq!(op_group(0xC8), OpGroup::RetfRelease);
    assert_eq!(op_group(0xC9), OpGroup::Retf);
    assert_eq!(op_group(0xDB), OpGroup::Esc);
    assert_eq!(op_group(0xF1), OpGroup::Idle);
    assert_eq!(op_group(0xF3), OpGroup::Unhandled);
    assert_eq!(op_group(0xFF), OpGroup::Group5);
    let f = Flags::new();
    assert!(!test_condition(&f, 0x4));
    assert!(test_condition(&f, 0x5));
    assert!(test_condition(&f, 0xF));
}

#[test]
fn mov_to_memory_with_displacement() {
    let mut cpu = Cpu::new();
    let mut io = new_bus();
    cpu.r.ds = 0x2000;
    cpu.r.bx = 0x0100;
    cpu.r.si = 0x0020;
    cpu.r.ax = 0x007E;
    let r = run(
        &mut cpu,
        &mut io,
        inst(
            0x88,
            Mnemonic::MOV,
            3,
            OperandType::AddressingMode(AddressingMode::BxSiDisp8(-0x10)),
            OperandType::Register8(Register8::AL),
        ),
    );
    assert_eq!(r, ExecutionResult::Okay);
    assert_eq!(cpu.peek_u8(lin(0x2000, 0x0110)), 0x7E);
    assert_eq!(cpu.last_ea, 0x0110);
    // one cycle, two for the memory destination, eleven for the address, three for the write
    assert_eq!(cpu.bus.cycles, 17);
}

#[test]
fn mov_from_memory_with_override() {
    let mut cpu = Cpu::new();
    let mut io = new_bus();
    cpu.r.ss = 0x1000;
    cpu.r.es = 0x3000;
    cpu.r.bp = 0x0010;
    cpu.r.di = 0x0005;
    cpu.poke_u8(lin(0x3000, 0x0015), 0xFE);
    cpu.poke_u8(lin(0x3000, 0x0016), 0xCA);
    let mut i = inst(
        0x8B,
        Mnemonic::MOV,
        3,
        OperandType::Register16(Register16::CX),
        OperandType::AddressingMode(AddressingMode::BpDi),
    );
    i.segment_override = SegmentOverride::ES;
    cpu.i = i;
    assert!(!cpu.segment_override_unused());
    assert_eq!(cpu.execute_instruction(&mut io), ExecutionResult::Okay);
    assert_eq!(cpu.r.cx, 0xCAFE);
    assert_eq!(cpu.bus.cycles, 1 + 7 + 8);

    // without the override the stack segment is read
    let mut cpu = Cpu::new();
    cpu.r.ss = 0x1000;
    cpu.r.bp = 0x0010;
    cpu.r.di = 0x0005;
    cpu.poke_u8(lin(0x1000, 0x0015), 0x34);
    cpu.poke_u8(lin(0x1000, 0x0016), 0x12);
    cpu.i = inst(
        0x8B,
        Mnemonic::MOV,
        3,
        OperandType::Register16(Register16::CX),
        OperandType::AddressingMode(AddressingMode::BpDi),
    );
    assert_eq!(cpu.execute_instruction(&mut io), ExecutionResult::Okay);
    assert_eq!(cpu.r.cx, 0x1234);
}

#[test]
fn effective_address_cycles() {
    let modes: Vec<(AddressingMode, u64, u16)> = vec![
        (AddressingMode::Bx, 5, 0x0100),
        (AddressingMode::Si, 5, 0x0020),
        (AddressingMode::Di, 5, 0x0003),
        (AddressingMode::Disp16(0x4000), 6, 0x4000),
        (AddressingMode::BxSi, 7, 0x0120),
        (AddressingMode::BpDi, 7, 0x0203),
        (AddressingMode::BxDi, 8, 0x0103),
        (AddressingMode::BpSi, 8, 0x0220),
        (AddressingMode::BxDisp8(4), 9, 0x0104),
        (AddressingMode::BpDisp16(-0x200), 9, 0x0000),
        (AddressingMode::SiDisp8(-0x21), 9, 0xFFFF),
        (AddressingMode::BxSiDisp16(0x1000), 11, 0x1120),
        (AddressingMode::BpDiDisp8(1), 11, 0x0204),
        (AddressingMode::BxDiDisp8(1), 12, 0x0104),
        (AddressingMode::BpSiDisp16(-1), 12, 0x021F),
    ];
    for (mode, cycles, offset) in modes {
        let mut cpu = Cpu::new();
        cpu.r.bx = 0x0100;
        cpu.r.bp = 0x0200;
        cpu.r.si = 0x0020;
        cpu.r.di = 0x0003;
        cpu.r.ds = 0x1000;
        cpu.r.ss = 0x2000;
        let ea = cpu.calc_effective_address(mode, SegmentOverride::NoOverride);
        assert_eq!(ea.2, offset, "{:?}", mode);
        assert_eq!(cpu.bus.cycles, cycles, "{:?}", mode);
        assert_eq!(cpu.last_ea, offset);
        let stack = matches!(
            mode,
            AddressingMode::BpDi
                | AddressingMode::BpSi
                | AddressingMode::BpDisp16(_)
                | AddressingMode::BpDiDisp8(_)
                | AddressingMode::BpSiDisp16(_)
        );
        assert_eq!(ea.1, if stack { Segment::SS } else { Segment::DS });
        assert_eq!(ea.0, if stack { 0x2000 } else { 0x1000 });
        assert_eq!(cpu.load_effective_address(OperandType::AddressingMode(mode)), Some(offset));
        assert_eq!(cpu.load_effective_address(OperandType::Register16(Register16::AX)), None);
    }
}

#[test]
fn operands_that_cannot_be_read() {
    let mut cpu = Cpu::new();
    assert_eq!(cpu.read_operand8(OperandType::Register16(Register16::AX), SegmentOverride::NoOverride), None);
    assert_eq!(cpu.read_operand8(OperandType::NoOperand, SegmentOverride::NoOverride), None);
    assert_eq!(cpu.read_operand16(OperandType::Immediate8(1), SegmentOverride::NoOverride), None);
    assert_eq!(cpu.read_operand16(OperandType::Relative16(-2), SegmentOverride::NoOverride), Some(0xFFFE));
    assert_eq!(
        cpu.read_operand_farptr(OperandType::Register16(Register16::AX), SegmentOverride::NoOverride, ReadWriteFlag::Normal),
        None
    );
    assert_eq!(
        cpu.read_operand_farptr(OperandType::FarAddress(1, 2), SegmentOverride::NoOverride, ReadWriteFlag::Normal),
        Some((1, 2))
    );
    assert_eq!(cpu.bus.cycles, 0);
    cpu.r.ds = 0x0100;
    cpu.poke_u8(0x1010, 0x99);
    assert_eq!(cpu.read_operand8(OperandType::Offset8(0x0010), SegmentOverride::NoOverride), Some(0x99));
    assert_eq!(cpu.bus.cycles, 4);
    // a write to an immediate changes nothing
    let before = cpu.r;
    cpu.write_operand8(OperandType::Immediate8(3), SegmentOverride::NoOverride, 7, ReadWriteFlag::Normal);
    cpu.write_operand16(OperandType::NoOperand, SegmentOverride::NoOverride, 7, ReadWriteFlag::Normal);
    assert_eq!(cpu.r, before);
    assert_eq!(cpu.bus.cycles, 4);
    cpu.i = inst(0x00, Mnemonic::ADD, 2, OperandType::Register16(Register16::AX), OperandType::Immediate8(1));
    assert!(!cpu.can_execute());
    cpu.i = inst(0x00, Mnemonic::MOV, 2, OperandType::Register8(Register8::AL), OperandType::Immediate8(1));
    assert!(!cpu.can_execute());
    cpu.i = inst(0xD0, Mnemonic::ADD, 2, OperandType::Register8(Register8::AL), NONE);
    assert!(!cpu.can_execute());
    cpu.i = inst(0xEB, Mnemonic::JMP, 2, OperandType::Relative16(1), NONE);
    assert!(!cpu.can_execute());
    cpu.i = inst(0x74, Mnemonic::JZ, 2, NONE, NONE);
    assert!(cpu.can_execute());
    cpu.r.flags.zero = true;
    assert!(!cpu.can_execute());
    cpu.i = inst(0xA6, Mnemonic::NOP, 1, NONE, NONE);
    assert!(!cpu.can_execute());
    cpu.in_rep = true;
    cpu.r.cx = 0;
    assert!(cpu.can_execute());
    cpu.i = inst(0xC4, Mnemonic::LES, 2, OperandType::Register16(Register16::AX), OperandType::Register16(Register16::BX));
    assert!(!cpu.can_execute());
}

#[test]
fn alu_on_memory_reads_modifies_and_writes() {
    let mut cpu = Cpu::new();
    let mut io = new_bus();
    cpu.r.ds = 0x0800;
    cpu.r.bx = 0x0040;
    cpu.r.cx = 0x0003;
    cpu.poke_u8(lin(0x0800, 0x0040), 0xFE);
    let r = run(
        &mut cpu,
        &mut io,
        inst(
            0x00,
            Mnemonic::ADD,
            2,
            OperandType::AddressingMode(AddressingMode::Bx),
            OperandType::Register8(Register8::CL),
        ),
    );
    assert_eq!(r, ExecutionResult::Okay);
    assert_eq!(cpu.peek_u8(lin(0x0800, 0x0040)), 0x01);
    assert!(cpu.r.flags.carry);
    // read: 5 + 4, operation: 1 + 3, write: 5 + 3
    assert_eq!(cpu.bus.cycles, 21);
    assert_eq!(cpu.opcode0_counter, 1);
}

#[test]
fn xchg_swaps_operands() {
    let mut cpu = Cpu::new();
    let mut io = new_bus();
    cpu.r.ax = 0x1111;
    cpu.r.dx = 0x2222;
    assert_eq!(
        run(&mut cpu, &mut io, inst(0x92, Mnemonic::XCHG, 1, NONE, NONE)),
        ExecutionResult::Okay
    );
    assert_eq!((cpu.r.ax, cpu.r.dx), (0x2222, 0x1111));
    assert_eq!(cpu.bus.cycles, 2);
    // XCHG AX, AX is the NOP
    run(&mut cpu, &mut io, inst(0x90, Mnemonic::NOP, 1, NONE, NONE));
    assert_eq!((cpu.r.ax, cpu.r.dx), (0x2222, 0x1111));

    let mut cpu = Cpu::new();
    cpu.r.ds = 0x0100;
    cpu.r.si = 0x0008;
    cpu.r.bx = 0xAB00;
    cpu.poke_u8(lin(0x0100, 0x0008), 0xCD);
    run(
        &mut cpu,
        &mut io,
        inst(
            0x86,
            Mnemonic::XCHG,
            2,
            OperandType::Register8(Register8::BH),
            OperandType::AddressingMode(AddressingMode::Si),
        ),
    );
    assert_eq!(cpu.r.bx, 0xCD00);
    assert_eq!(cpu.peek_u8(lin(0x0100, 0x0008)), 0xAB);
    // read 5 + 4, then 4 + 2, then write 5 + 3
    assert_eq!(cpu.bus.cycles, 23);

    let mut cpu = Cpu::new();
    cpu.r.cx = 0x1234;
    cpu.r.bp = 0x5678;
    run(
        &mut cpu,
        &mut io,
        inst(
            0x87,
            Mnemonic::XCHG,
            2,
            OperandType::Register16(Register16::CX),
            OperandType::Register16(Register16::BP),
        ),
    );
    assert_eq!((cpu.r.cx, cpu.r.bp), (0x5678, 0x1234));
    assert_eq!(cpu.bus.cycles, 4);
}

#[test]
fn lea_takes_the_offset() {
    let mut cpu = Cpu::new();
    let mut io = new_bus();
    cpu.r.bx = 0x1000;
    cpu.r.di = 0x0234;
    run(
        &mut cpu,
        &mut io,
        inst(
            0x8D,
            Mnemonic::LEA,
            4,
            OperandType::Register16(Register16::AX),
            OperandType::AddressingMode(AddressingMode::BxDiDisp16(-4)),
        ),
    );
    assert_eq!(cpu.r.ax, 0x1230);
    assert_eq!(cpu.bus.cycles, 12);
    // with a register as its source LEA hands out the last offset formed
    run(
        &mut cpu,
        &mut io,
        inst(
            0x8D,
            Mnemonic::LEA,
            2,
            OperandType::Register16(Register16::DX),
            OperandType::Register16(Register16::CX),
        ),
    );
    assert_eq!(cpu.r.dx, 0x1230);
    assert_eq!(cpu.bus.cycles, 15);
}

#[test]
fn les_and_lds_load_far_pointers() {
    let mut cpu = Cpu::new();
    let mut io = new_bus();
    cpu.r.ds = 0x0100;
    cpu.r.bx = 0x0010;
    for (k, b) in [0x78u8, 0x56, 0x34, 0x12].iter().enumerate() {
        cpu.poke_u8(lin(0x0100, 0x0010) + k as u32, *b);
    }
    run(
        &mut cpu,
        &mut io,
        inst(
            0xC4,
            Mnemonic::LES,
            2,
            OperandType::Register16(Register16::DI),
            OperandType::AddressingMode(AddressingMode::Bx),
        ),
    );
    assert_eq!((cpu.r.es, cpu.r.di), (0x1234, 0x5678));
    assert_eq!(cpu.bus.cycles, 5 + 16);
    let before = cpu.bus.cycles;
    run(
        &mut cpu,
        &mut io,
        inst(
            0xC5,
            Mnemonic::LDS,
            2,
            OperandType::Register16(Register16::SI),
            OperandType::AddressingMode(AddressingMode::Bx),
        ),
    );
    assert_eq!((cpu.r.ds, cpu.r.si), (0x1234, 0x5678));
    assert_eq!(cpu.bus.cycles - before, 5 + 15);
}

#[test]
fn moves_with_immediates_and_offsets() {
    let mut cpu = Cpu::new();
    let mut io = new_bus();
    run(
        &mut cpu,
        &mut io,
        inst(0xB4, Mnemonic::MOV, 2, OperandType::Register8(Register8::AH), OperandType::Immediate8(0x9A)),
    );
    assert_eq!(cpu.r.ax, 0x9A00);
    run(
        &mut cpu,
        &mut io,
        inst(0xBE, Mnemonic::MOV, 3, OperandType::Register16(Register16::SI), OperandType::Immediate16(0xBEEF)),
    );
    assert_eq!(cpu.r.si, 0xBEEF);
    // operands of the wrong kind change nothing
    let before = cpu.r;
    run(
        &mut cpu,
        &mut io,
        inst(0xB0, Mnemonic::MOV, 2, OperandType::Register16(Register16::AX), OperandType::Immediate8(1)),
    );
    assert_eq!(cpu.r, before);
    cpu.r.ds = 0x0200;
    cpu.r.ax = 0x1234;
    run(&mut cpu, &mut io, inst(0xA3, Mnemonic::MOV, 3, OperandType::Offset16(0x0100), NONE));
    assert_eq!(cpu.peek_u16(lin(0x0200, 0x0100)), 0x1234);
    run(&mut cpu, &mut io, inst(0xA2, Mnemonic::MOV, 3, OperandType::Offset8(0x0200), NONE));
    assert_eq!(cpu.peek_u8(lin(0x0200, 0x0200)), 0x34);
    cpu.r.ax = 0;
    run(&mut cpu, &mut io, inst(0xA0, Mnemonic::MOV, 3, NONE, OperandType::Offset8(0x0101)));
    assert_eq!(cpu.r.ax, 0x0012);
    run(&mut cpu, &mut io, inst(0xA1, Mnemonic::MOV, 3, NONE, OperandType::Offset16(0x0100)));
    assert_eq!(cpu.r.ax, 0x1234);
    run(
        &mut cpu,
        &mut io,
        inst(
            0xC7,
            Mnemonic::MOV,
            4,
            OperandType::Offset16(0x0300),
            OperandType::Immediate16(0xABCD),
        ),
    );
    assert_eq!(cpu.peek_u16(lin(0x0200, 0x0300)), 0xABCD);
    run(
        &mut cpu,
        &mut io,
        inst(0xC6, Mnemonic::MOV, 3, OperandType::Register8(Register8::DL), OperandType::Immediate8(0x77)),
    );
    assert_eq!(cpu.r.dx, 0x0077);
    run(
        &mut cpu,
        &mut io,
        inst(0x8E, Mnemonic::MOV, 2, OperandType::Register16(Register16::ES), OperandType::Register16(Register16::AX)),
    );
    assert_eq!(cpu.r.es, 0x1234);
}

#[test]
fn push_and_pop() {
    let mut cpu = Cpu::new();
    let mut io = new_bus();
    cpu.r.ss = 0x0300;
    cpu.r.sp = 0x0002;
    cpu.r.ax = 0xA1B2;
    run(&mut cpu, &mut io, inst(0x50, Mnemonic::PUSH, 1, NONE, NONE));
    assert_eq!(cpu.r.sp, 0x0000);
    assert_eq!(cpu.peek_u16(lin(0x0300, 0)), 0xA1B2);
    assert_eq!(cpu.bus.cycles, 4 + 7);
    // the stack pointer wraps within the segment
    cpu.r.ds = 0xC3D4;
    run(&mut cpu, &mut io, inst(0x1E, Mnemonic::PUSH, 1, NONE, NONE));
    assert_eq!(cpu.r.sp, 0xFFFE);
    assert_eq!(cpu.peek_u16(lin(0x0300, 0xFFFE)), 0xC3D4);
    run(&mut cpu, &mut io, inst(0x5B, Mnemonic::POP, 1, NONE, NONE));
    assert_eq!(cpu.r.bx, 0xC3D4);
    assert_eq!(cpu.r.sp, 0x0000);
    run(&mut cpu, &mut io, inst(0x07, Mnemonic::POP, 1, NONE, NONE));
    assert_eq!(cpu.r.es, 0xA1B2);
    assert_eq!(cpu.r.sp, 0x0002);
    // a pop into SP leaves the popped value there
    cpu.poke_u8(lin(0x0300, 2), 0x00);
    cpu.poke_u8(lin(0x0300, 3), 0x80);
    run(&mut cpu, &mut io, inst(0x5C, Mnemonic::POP, 1, NONE, NONE));
    assert_eq!(cpu.r.sp, 0x8000);
    // POP r/m16
    cpu.r.sp = 0x0000;
    cpu.r.ds = 0x0400;
    run(&mut cpu, &mut io, inst(0x8F, Mnemonic::POP, 4, OperandType::Offset16(0x0010), NONE));
    assert_eq!(cpu.peek_u16(lin(0x0400, 0x0010)), 0xA1B2);
    // PUSH r/m16 and the byte push of group 4
    cpu.r.dx = 0x5566;
    run(&mut cpu, &mut io, inst(0xFF, Mnemonic::PUSH, 2, OperandType::Register16(Register16::DX), NONE));
    assert_eq!(cpu.r.sp, 0x0000);
    assert_eq!(cpu.peek_u16(lin(0x0300, 0)), 0x5566);
    run(&mut cpu, &mut io, inst(0xFE, Mnemonic::PUSH, 2, OperandType::Register8(Register8::DH), NONE));
    assert_eq!(cpu.r.sp, 0xFFFE);
    assert_eq!(cpu.peek_u8(lin(0x0300, 0xFFFE)), 0x55);
}

#[test]
fn flags_travel_through_stack_and_ah() {
    let mut cpu = Cpu::new();
    let mut io = new_bus();
    cpu.r.ss = 0x0100;
    cpu.r.sp = 0x0100;
    cpu.r.flags.carry = true;
    cpu.r.flags.direction = true;
    run(&mut cpu, &mut io, inst(0x9C, Mnemonic::PUSHF, 1, NONE, NONE));
    assert_eq!(cpu.peek_u16(lin(0x0100, 0x00FE)), 0xF403);
    cpu.r.flags = Flags::new();
    run(&mut cpu, &mut io, inst(0x9D, Mnemonic::POPF, 1, NONE, NONE));
    assert!(cpu.r.flags.carry && cpu.r.flags.direction && !cpu.r.flags.zero);
    assert_eq!(cpu.r.sp, 0x0100);
    run(&mut cpu, &mut io, inst(0x9F, Mnemonic::LAHF, 1, NONE, NONE));
    assert_eq!(cpu.r.ax >> 8, 0x03);
    cpu.r.ax = 0xD500;
    run(&mut cpu, &mut io, inst(0x9E, Mnemonic::SAHF, 1, NONE, NONE));
    assert!(cpu.r.flags.carry && cpu.r.flags.parity && cpu.r.flags.aux_carry);
    assert!(cpu.r.flags.zero && cpu.r.flags.sign && cpu.r.flags.direction);
    cpu.r.ax = 0x0000;
    run(&mut cpu, &mut io, inst(0x9E, Mnemonic::SAHF, 1, NONE, NONE));
    assert!(!cpu.r.flags.carry && !cpu.r.flags.zero && cpu.r.flags.direction);
}

#[test]
fn flag_instructions() {
    let mut cpu = Cpu::new();
    let mut io = new_bus();
    run(&mut cpu, &mut io, inst(0xF9, Mnemonic::STC, 1, NONE, NONE));
    assert!(cpu.r.flags.carry);
    run(&mut cpu, &mut io, inst(0xF5, Mnemonic::CMC, 1, NONE, NONE));
    assert!(!cpu.r.flags.carry);
    run(&mut cpu, &mut io, inst(0xF5, Mnemonic::CMC, 1, NONE, NONE));
    assert!(cpu.r.flags.carry);
    run(&mut cpu, &mut io, inst(0xD6, Mnemonic::SALC, 1, NONE, NONE));
    assert_eq!(cpu.r.ax, 0x00FF);
    run(&mut cpu, &mut io, inst(0xF8, Mnemonic::CLC, 1, NONE, NONE));
    assert!(!cpu.r.flags.carry);
    run(&mut cpu, &mut io, inst(0xD6, Mnemonic::SALC, 1, NONE, NONE));
    assert_eq!(cpu.r.ax, 0x0000);
    run(&mut cpu, &mut io, inst(0xFD, Mnemonic::STD, 1, NONE, NONE));
    assert!(cpu.r.flags.direction);
    run(&mut cpu, &mut io, inst(0xFC, Mnemonic::CLD, 1, NONE, NONE));
    assert!(!cpu.r.flags.direction);
    run(&mut cpu, &mut io, inst(0xFB, Mnemonic::STI, 1, NONE, NONE));
    assert!(cpu.r.flags.interrupt);
    run(&mut cpu, &mut io, inst(0xFA, Mnemonic::CLI, 1, NONE, NONE));
    assert!(!cpu.r.flags.interrupt);
    // STC, CMC twice without a cycle, then one cycle each
    assert_eq!(cpu.bus.cycles, 6);
    run(&mut cpu, &mut io, inst(0x9B, Mnemonic::WAIT, 1, NONE, NONE));
    run(&mut cpu, &mut io, inst(0xF1, Mnemonic::NOP, 1, NONE, NONE));
    assert_eq!(cpu.bus.cycles, 10);
    run(&mut cpu, &mut io, inst(0x2E, Mnemonic::NOP, 1, NONE, NONE));
    assert_eq!(cpu.bus.cycles, 10);
}

#[test]
fn sign_extension_and_xlat() {
    let mut cpu = Cpu::new();
    let mut io = new_bus();
    cpu.r.ax = 0x1280;
    run(&mut cpu, &mut io, inst(0x98, Mnemonic::CBW, 1, NONE, NONE));
    assert_eq!(cpu.r.ax, 0xFF80);
    run(&mut cpu, &mut io, inst(0x99, Mnemonic::CWD, 1, NONE, NONE));
    assert_eq!(cpu.r.dx, 0xFFFF);
    cpu.r.ax = 0xFF7F;
    run(&mut cpu, &mut io, inst(0x98, Mnemonic::CBW, 1, NONE, NONE));
    assert_eq!(cpu.r.ax, 0x007F);
    run(&mut cpu, &mut io, inst(0x99, Mnemonic::CWD, 1, NONE, NONE));
    assert_eq!(cpu.r.dx, 0x0000);
    cpu.r.ds = 0x0100;
    cpu.r.bx = 0xFFF0;
    cpu.r.ax = 0x0020;
    cpu.poke_u8(lin(0x0100, 0x0010), 0x5C);
    run(&mut cpu, &mut io, inst(0xD7, Mnemonic::XLAT, 1, NONE, NONE));
    assert_eq!(cpu.r.ax, 0x005C);
    cpu.r.es = 0x0200;
    cpu.r.ax = 0x0020;
    cpu.poke_u8(lin(0x0200, 0x0010), 0x6D);
    let mut i = inst(0xD7, Mnemonic::XLAT, 1, NONE, NONE);
    i.segment_override = SegmentOverride::ES;
    run(&mut cpu, &mut io, i);
    assert_eq!(cpu.r.ax, 0x006D);
}

#[test]
fn near_call_and_return() {
    let mut cpu = Cpu::new();
    let mut io = new_bus();
    cpu.r.cs = 0x0700;
    cpu.r.ip = 0x0100;
    cpu.r.ss = 0x0900;
    cpu.r.sp = 0x0200;
    let r = run(&mut cpu, &mut io, inst(0xE8, Mnemonic::CALL, 3, OperandType::Relative16(-0x20), NONE));
    assert_eq!(r, ExecutionResult::OkayJump);
    assert_eq!(cpu.r.ip, 0x00E3);
    assert_eq!(cpu.r.sp, 0x01FE);
    assert_eq!(cpu.peek_u16(lin(0x0900, 0x01FE)), 0x0103);
    assert_eq!(cpu.call_stack.len(), 1);
    assert_eq!(cpu.call_stack[0], CallStackEntry::Call(0x0700, 0x0100, 0xFFE0));
    assert_eq!(cpu.bus.cycles, 8 + 4);
    assert_eq!(cpu.bus.flushed_at - cpu.bus.suspended_at, 4);
    let r = run(&mut cpu, &mut io, inst(0xC3, Mnemonic::RETN, 1, NONE, NONE));
    assert_eq!(r, ExecutionResult::OkayJump);
    assert_eq!(cpu.r.ip, 0x0103);
    assert_eq!(cpu.r.sp, 0x0200);
    assert_eq!(cpu.call_stack.len(), 0);
    assert_eq!(cpu.bus.cycles, 12 + 8 + 1 + 2);
    assert_eq!(cpu.bus.flushes, 2);
    // a return with nothing on the trace is fine, and the alias 0xC1 works alike
    cpu.r.sp = 0x01FE;
    run(&mut cpu, &mut io, inst(0xC1, Mnemonic::RETN, 1, NONE, NONE));
    assert_eq!(cpu.r.ip, 0x0103);
    assert_eq!(cpu.call_stack.len(), 0);
    // a return that releases parameters
    cpu.r.sp = 0x01FE;
    run(&mut cpu, &mut io, inst(0xC2, Mnemonic::RETN, 3, OperandType::Immediate16(6), NONE));
    assert_eq!(cpu.r.sp, 0x0206);
    cpu.r.sp = 0x01FE;
    run(&mut cpu, &mut io, inst(0xC0, Mnemonic::RETN, 3, OperandType::Immediate16(2), NONE));
    assert_eq!(cpu.r.sp, 0x0202);
    assert_eq!(cpu.r.ip, 0x0103);
}

#[test]
fn far_call_and_return() {
    let mut cpu = Cpu::new();
    let mut io = new_bus();
    cpu.r.cs = 0x0700;
    cpu.r.ip = 0x0100;
    cpu.r.ss = 0x0900;
    cpu.r.sp = 0x0200;
    let r = run(
        &mut cpu,
        &mut io,
        inst(0x9A, Mnemonic::CALLF, 5, OperandType::FarAddress(0x1234, 0x5678), NONE),
    );
    assert_eq!(r, ExecutionResult::OkayJump);
    assert_eq!((cpu.r.cs, cpu.r.ip), (0x1234, 0x5678));
    assert_eq!(cpu.r.sp, 0x01FC);
    assert_eq!(cpu.peek_u16(lin(0x0900, 0x01FE)), 0x0700);
    assert_eq!(cpu.peek_u16(lin(0x0900, 0x01FC)), 0x0105);
    assert_eq!(cpu.call_stack[0], CallStackEntry::CallF(0x0700, 0x0100, 0x1234, 0x5678));
    // 1 + 6, push 8, 3, then 4, push 7
    assert_eq!(cpu.bus.cycles, 29);
    assert_eq!(cpu.bus.suspended_at, 1);
    assert_eq!(cpu.bus.flushed_at, 18);
    let before = cpu.bus.cycles;
    let r = run(&mut cpu, &mut io, inst(0xCB, Mnemonic::RETF, 1, NONE, NONE));
    assert_eq!(r, ExecutionResult::OkayJump);
    assert_eq!((cpu.r.cs, cpu.r.ip), (0x0700, 0x0105));
    assert_eq!(cpu.r.sp, 0x0200);
    assert_eq!(cpu.call_stack.len(), 0);
    assert_eq!(cpu.bus.cycles - before, 8 + 8 + 1 + 2);
    cpu.r.sp = 0x01FC;
    let before = cpu.bus.cycles;
    run(&mut cpu, &mut io, inst(0xCA, Mnemonic::RETF, 3, OperandType::Immediate16(4), NONE));
    assert_eq!((cpu.r.cs, cpu.r.ip), (0x0700, 0x0105));
    assert_eq!(cpu.r.sp, 0x0204);
    assert_eq!(cpu.bus.cycles - before, 8 + 3 + 8 + 1);
}

#[test]
fn indirect_calls_and_jumps() {
    let mut cpu = Cpu::new();
    let mut io = new_bus();
    cpu.r.cs = 0x0700;
    cpu.r.ip = 0x0100;
    cpu.r.ss = 0x0900;
    cpu.r.sp = 0x0200;
    cpu.r.bx = 0x4321;
    let r = run(&mut cpu, &mut io, inst(0xFF, Mnemonic::CALL, 2, OperandType::Register16(Register16::BX), NONE));
    assert_eq!(r, ExecutionResult::OkayJump);
    assert_eq!(cpu.r.ip, 0x4321);
    assert_eq!(cpu.peek_u16(lin(0x0900, 0x01FE)), 0x0102);
    assert_eq!(cpu.call_stack[0], CallStackEntry::Call(0x0700, 0x0100, 0x4321));
    cpu.r.si = 0x0010;
    cpu.r.ds = 0x0300;
    for (k, b) in [0x00u8, 0x20, 0x00, 0x50].iter().enumerate() {
        cpu.poke_u8(lin(0x0300, 0x0010) + k as u32, *b);
    }
    let r = run(
        &mut cpu,
        &mut io,
        inst(0xFF, Mnemonic::JMPF, 2, OperandType::AddressingMode(AddressingMode::Si), NONE),
    );
    assert_eq!(r, ExecutionResult::OkayJump);
    assert_eq!((cpu.r.cs, cpu.r.ip), (0x5000, 0x2000));
    let r = run(
        &mut cpu,
        &mut io,
        inst(0xFF, Mnemonic::JMP, 2, OperandType::AddressingMode(AddressingMode::Si), NONE),
    );
    assert_eq!(r, ExecutionResult::OkayJump);
    assert_eq!(cpu.r.ip, 0x2000);
    cpu.r.ip = 0x0040;
    let r = run(
        &mut cpu,
        &mut io,
        inst(0xFF, Mnemonic::CALLF, 2, OperandType::AddressingMode(AddressingMode::Si), NONE),
    );
    assert_eq!(r, ExecutionResult::OkayJump);
    assert_eq!((cpu.r.cs, cpu.r.ip), (0x5000, 0x2000));
    assert_eq!(cpu.r.sp, 0x01FA);
    assert_eq!(cpu.peek_u16(lin(0x0900, 0x01FC)), 0x5000);
    assert_eq!(cpu.peek_u16(lin(0x0900, 0x01FA)), 0x0042);
    assert_eq!(cpu.call_stack.len(), 2);
    assert_eq!(cpu.call_stack[1], CallStackEntry::CallF(0x5000, 0x0040, 0x5000, 0x2000));
}

#[test]
fn byte_forms_of_far_transfers() {
    let mut cpu = Cpu::new();
    let mut io = new_bus();
    cpu.r.cs = 0x1234;
    cpu.r.ip = 0x00FE;
    cpu.r.ss = 0x0900;
    cpu.r.sp = 0x0200;
    cpu.r.ds = 0x0300;
    cpu.r.di = 0xFFFF;
    cpu.poke_u8(lin(0x0300, 0xFFFF), 0x11);
    // two bytes further, wrapping within the segment
    cpu.poke_u8(lin(0x0300, 0x0001), 0x22);
    let r = run(
        &mut cpu,
        &mut io,
        inst(0xFE, Mnemonic::JMPF, 2, OperandType::AddressingMode(AddressingMode::Di), NONE),
    );
    assert_eq!(r, ExecutionResult::OkayJump);
    assert_eq!((cpu.r.cs, cpu.r.ip), (0xFF22, 0xFF11));
    assert_eq!(cpu.bus.cycles, 5 + 8 + 4);
    cpu.r.cs = 0x1234;
    cpu.r.ip = 0x00FE;
    let r = run(
        &mut cpu,
        &mut io,
        inst(0xFE, Mnemonic::CALLF, 2, OperandType::AddressingMode(AddressingMode::Di), NONE),
    );
    assert_eq!(r, ExecutionResult::OkayJump);
    assert_eq!((cpu.r.cs, cpu.r.ip), (0xFF22, 0xFF11));
    assert_eq!(cpu.r.sp, 0x01FC);
    assert_eq!(cpu.peek_u8(lin(0x0900, 0x01FE)), 0x34);
    assert_eq!(cpu.peek_u8(lin(0x0900, 0x01FC)), 0x00);
    // with a register operand the whole word goes to IP and no jump is reported
    cpu.r.cx = 0x8765;
    let r = run(
        &mut cpu,
        &mut io,
        inst(0xFE, Mnemonic::JMPF, 2, OperandType::Register8(Register8::CH), NONE),
    );
    assert_eq!(r, ExecutionResult::Okay);
    assert_eq!(cpu.r.ip, 0x8765);
    assert_eq!(cpu.r.cs, 0xFF22);
    let r = run(
        &mut cpu,
        &mut io,
        inst(0xFE, Mnemonic::CALLF, 2, OperandType::Register8(Register8::CL), NONE),
    );
    assert_eq!(r, ExecutionResult::Okay);
    assert_eq!(cpu.r.ip, 0x8765);
    assert_eq!(cpu.r.sp, 0x01F8);
}

#[test]
fn jumps() {
    let mut cpu = Cpu::new();
    let mut io = new_bus();
    cpu.r.ip = 0x0100;
    let r = run(&mut cpu, &mut io, inst(0xEB, Mnemonic::JMP, 2, OperandType::Relative8(-2), NONE));
    assert_eq!(r, ExecutionResult::OkayJump);
    assert_eq!(cpu.r.ip, 0x0100);
    assert_eq!(cpu.bus.cycles, 7);
    assert_eq!((cpu.bus.suspended_at, cpu.bus.flushed_at), (0, 5));
    let r = run(&mut cpu, &mut io, inst(0xE9, Mnemonic::JMP, 3, OperandType::Relative16(0x7FFF), NONE));
    assert_eq!(r, ExecutionResult::OkayJump);
    assert_eq!(cpu.r.ip, 0x8102);
    assert_eq!(cpu.bus.cycles, 13);
    let r = run(&mut cpu, &mut io, inst(0xEA, Mnemonic::JMPF, 5, OperandType::FarAddress(0xF000, 0xFFF0), NONE));
    assert_eq!(r, ExecutionResult::OkayJump);
    assert_eq!((cpu.r.cs, cpu.r.ip), (0xF000, 0xFFF0));
    // JCXZ
    cpu.r.cx = 1;
    let r = run(&mut cpu, &mut io, inst(0xE3, Mnemonic::JCXZ, 2, OperandType::Relative8(0x10), NONE));
    assert_eq!(r, ExecutionResult::Okay);
    assert_eq!(cpu.r.ip, 0xFFF0);
    cpu.r.cx = 0;
    let r = run(&mut cpu, &mut io, inst(0xE3, Mnemonic::JCXZ, 2, OperandType::Relative8(0x10), NONE));
    assert_eq!(r, ExecutionResult::OkayJump);
    assert_eq!(cpu.r.ip, 0x0002);
    assert_eq!(cpu.r.cx, 0);
}

#[test]
fn loopne_and_loope() {
    let mut cpu = Cpu::new();
    let mut io = new_bus();
    cpu.r.ip = 0x0100;
    cpu.r.cx = 3;
    cpu.r.flags.zero = false;
    let r = run(&mut cpu, &mut io, inst(0xE0, Mnemonic::LOOPNE, 2, OperandType::Relative8(-4), NONE));
    assert_eq!(r, ExecutionResult::OkayJump);
    assert_eq!((cpu.r.cx, cpu.r.ip), (2, 0x00FE));
    cpu.r.flags.zero = true;
    let r = run(&mut cpu, &mut io, inst(0xE0, Mnemonic::LOOPNE, 2, OperandType::Relative8(-4), NONE));
    assert_eq!(r, ExecutionResult::Okay);
    assert_eq!((cpu.r.cx, cpu.r.ip), (1, 0x00FE));
    let r = run(&mut cpu, &mut io, inst(0xE1, Mnemonic::LOOPE, 2, OperandType::Relative8(-4), NONE));
    assert_eq!(r, ExecutionResult::Okay);
    assert_eq!((cpu.r.cx, cpu.r.ip), (0, 0x00FE));
    // counting down from zero wraps and goes on
    let r = run(&mut cpu, &mut io, inst(0xE1, Mnemonic::LOOPE, 2, OperandType::Relative8(-4), NONE));
    assert_eq!(r, ExecutionResult::OkayJump);
    assert_eq!((cpu.r.cx, cpu.r.ip), (0xFFFF, 0x00FC));
    assert!(cpu.r.flags.zero);
}

#[test]
fn software_interrupt_and_return() {
    let mut cpu = Cpu::new();
    let mut io = new_bus();
    cpu.r.cs = 0x0700;
    cpu.r.ip = 0x0100;
    cpu.r.ss = 0x0900;
    cpu.r.sp = 0x0200;
    cpu.r.flags.interrupt = true;
    cpu.r.flags.trap = true;
    cpu.r.flags.carry = true;
    // vector 0x21 at 0x84
    for (k, b) in [0x60u8, 0x14, 0x00, 0xF0].iter().enumerate() {
        cpu.poke_u8(0x84 + k as u32, *b);
    }
    let r = run(&mut cpu, &mut io, inst(0xCD, Mnemonic::INT, 2, OperandType::Immediate8(0x21), NONE));
    assert_eq!(r, ExecutionResult::OkayJump);
    assert_eq!((cpu.r.cs, cpu.r.ip), (0xF000, 0x1460));
    assert!(!cpu.r.flags.interrupt && !cpu.r.flags.trap && cpu.r.flags.carry);
    assert_eq!(cpu.r.sp, 0x01FA);
    assert_eq!(cpu.peek_u16(lin(0x0900, 0x01FE)), 0xF002 | 0x0301);
    assert_eq!(cpu.peek_u16(lin(0x0900, 0x01FC)), 0x0700);
    assert_eq!(cpu.peek_u16(lin(0x0900, 0x01FA)), 0x0102);
    assert_eq!(cpu.bus.cycles, 16 + 24);
    cpu.r.flags.carry = false;
    let r = run(&mut cpu, &mut io, inst(0xCF, Mnemonic::IRET, 1, NONE, NONE));
    assert_eq!(r, ExecutionResult::OkayJump);
    assert_eq!((cpu.r.cs, cpu.r.ip), (0x0700, 0x0102));
    assert_eq!(cpu.r.sp, 0x0200);
    assert!(cpu.r.flags.interrupt && cpu.r.flags.trap && cpu.r.flags.carry);
    // INT 3 and INTO move IP by one
    for (k, b) in [0x11u8, 0x11, 0x22, 0x22].iter().enumerate() {
        cpu.poke_u8(0x0C + k as u32, *b);
        cpu.poke_u8(0x10 + k as u32, *b + 0x22);
    }
    run(&mut cpu, &mut io, inst(0xCC, Mnemonic::INT3, 1, NONE, NONE));
    assert_eq!((cpu.r.cs, cpu.r.ip), (0x2222, 0x1111));
    assert_eq!(cpu.peek_u16(lin(0x0900, 0x01FA)), 0x0103);
    cpu.r.flags.overflow = false;
    let r = run(&mut cpu, &mut io, inst(0xCE, Mnemonic::INTO, 1, NONE, NONE));
    assert_eq!(r, ExecutionResult::OkayJump);
    assert_eq!((cpu.r.cs, cpu.r.ip), (0x4444, 0x3333));
}

#[test]
fn hardware_interrupt_wakes_and_saves_the_repetition() {
    let mut cpu = Cpu::new();
    cpu.r.cs = 0x0050;
    cpu.r.ip = 0x0010;
    cpu.r.ss = 0x0900;
    cpu.r.sp = 0x0100;
    cpu.r.es = 0x2000;
    cpu.r.di = 0x0033;
    cpu.r.cx = 9;
    cpu.halted = true;
    cpu.in_rep = true;
    cpu.rep_mnemonic = Mnemonic::STOSW;
    cpu.poke_u8(8 * 4, 0x00);
    cpu.poke_u8(8 * 4 + 1, 0x10);
    cpu.hw_interrupt(8);
    assert!(!cpu.halted);
    assert!(!cpu.in_rep);
    assert_eq!(cpu.rep_state.len(), 1);
    assert_eq!(cpu.rep_state[0], (0x0050, 0x0010, RepState::StoswState(0x2000, 0x0033, 9)));
    assert_eq!((cpu.r.cs, cpu.r.ip), (0x0000, 0x1000));
    assert_eq!(cpu.peek_u16(lin(0x0900, 0x00FA)), 0x0010);
    // no repetition, nothing saved
    cpu.save_rep_state();
    assert_eq!(cpu.rep_state.len(), 1);
    // a snapshot for another address stays where it is
    cpu.i = Instruction {
        opcode: 0xAB,
        prefixes: OPCODE_PREFIX_REP2,
        size: 2,
        mnemonic: Mnemonic::STOSW,
        segment_override: SegmentOverride::NoOverride,
        operand1_type: NONE,
        operand2_type: NONE,
    };
    cpu.r.cx = 1;
    let mut io = new_bus();
    assert_eq!(cpu.execute_instruction(&mut io), ExecutionResult::Okay);
    assert_eq!(cpu.rep_state.len(), 1);
    assert_eq!(cpu.r.cx, 0);
}

#[test]
fn lods_and_scas_take_extra_cycles_when_not_repeated() {
    let mut cpu = Cpu::new();
    let mut io = new_bus();
    cpu.r.ds = 0x0100;
    cpu.r.si = 0x0004;
    cpu.poke_u8(lin(0x0100, 4), 0x99);
    cpu.poke_u8(lin(0x0100, 5), 0x88);
    run(&mut cpu, &mut io, inst(0xAD, Mnemonic::LODSW, 1, NONE, NONE));
    assert_eq!(cpu.r.ax, 0x8899);
    assert_eq!(cpu.r.si, 0x0006);
    assert_eq!(cpu.bus.cycles, 2 + 8 + 2);
    cpu.r.es = 0x0100;
    cpu.r.di = 0x0004;
    let before = cpu.bus.cycles;
    run(&mut cpu, &mut io, inst(0xAF, Mnemonic::SCASW, 1, NONE, NONE));
    assert!(cpu.r.flags.zero);
    assert_eq!(cpu.r.di, 0x0006);
    assert_eq!(cpu.bus.cycles - before, 4 + 8 + 3);
    // a source segment override applies to LODS
    cpu.r.es = 0x0200;
    cpu.r.si = 0x0000;
    cpu.poke_u8(lin(0x0200, 0), 0x42);
    let mut i = inst(0xAC, Mnemonic::LODSB, 1, NONE, NONE);
    i.segment_override = SegmentOverride::ES;
    run(&mut cpu, &mut io, i);
    assert_eq!(cpu.r.ax, 0x8842);
}

#[test]
fn in_and_out_reach_the_devices() {
    let mut cpu = Cpu::new();
    let mut io = new_bus();
    let r = run(
        &mut cpu,
        &mut io,
        inst(0xE4, Mnemonic::IN, 2, OperandType::Register8(Register8::AL), OperandType::Immediate8(0x31)),
    );
    assert_eq!(r, ExecutionResult::Okay);
    assert_eq!(cpu.r.ax, 0x00F3);
    cpu.r.ax = 0x55AA;
    run(
        &mut cpu,
        &mut io,
        inst(0xE6, Mnemonic::OUT, 2, OperandType::Immediate8(0x33), OperandType::Register8(Register8::AL)),
    );
    assert_eq!(io.system_port.port_b_byte, 0xAA);
    cpu.r.dx = 0x0035;
    run(
        &mut cpu,
        &mut io,
        inst(0xEE, Mnemonic::OUT, 1, OperandType::Register16(Register16::DX), OperandType::Register8(Register8::AL)),
    );
    assert_eq!(io.system_port.port_c_byte, 0xAA);
    // a word goes out as two bytes: the low one to the port, the high one to the next
    cpu.r.ax = 0x4700;
    cpu.r.dx = 0x0061;
    run(
        &mut cpu,
        &mut io,
        inst(0xEF, Mnemonic::OUT, 1, OperandType::Register16(Register16::DX), OperandType::Register16(Register16::AX)),
    );
    assert_eq!(io.graphics.tgdc.fifo.len(), 1);
    assert_eq!(io.graphics.tgdc.fifo[0], 0x47);
    cpu.r.ax = 0x1234;
    run(
        &mut cpu,
        &mut io,
        inst(0xE7, Mnemonic::OUT, 2, OperandType::Immediate8(0x33), OperandType::Register16(Register16::AX)),
    );
    assert_eq!(io.system_port.port_b_byte, 0x34);
    cpu.r.ax = 0x0012;
    run(
        &mut cpu,
        &mut io,
        inst(0xE7, Mnemonic::OUT, 2, OperandType::Immediate8(0x5F), OperandType::Register16(Register16::AX)),
    );
    assert_eq!(io.graphics.tgdc.fifo.len(), 2);
    assert_eq!(io.graphics.tgdc.fifo[1], 0x100);
    // IN to AX reads one byte
    io.keyboard.send_keyboard(0x7E);
    io.keyboard.run();
    cpu.r.dx = 0x0041;
    cpu.r.ax = 0xFFFF;
    run(
        &mut cpu,
        &mut io,
        inst(0xED, Mnemonic::IN, 1, OperandType::Register16(Register16::AX), OperandType::Register16(Register16::DX)),
    );
    assert_eq!(cpu.r.ax, 0x007E);
    assert!(!io.keyboard.upd8251.rxrdy);
    cpu.r.dx = 0x0060;
    run(
        &mut cpu,
        &mut io,
        inst(0xEC, Mnemonic::IN, 1, OperandType::Register8(Register8::AL), OperandType::Register16(Register16::DX)),
    );
    assert_eq!(cpu.r.ax, 0x0000);
    run(
        &mut cpu,
        &mut io,
        inst(0xE5, Mnemonic::IN, 2, OperandType::Register16(Register16::AX), OperandType::Immediate8(0x99)),
    );
    assert_eq!(cpu.r.ax, 0x00FF);
}

#[test]
fn shifts_by_cl_take_four_cycles_a_step() {
    let mut cpu = Cpu::new();
    let mut io = new_bus();
    cpu.r.cx = 0x0003;
    cpu.r.bx = 0x0011;
    let r = run(
        &mut cpu,
        &mut io,
        inst(0xD2, Mnemonic::SHL, 2, OperandType::Register8(Register8::BL), OperandType::Register8(Register8::CL)),
    );
    assert_eq!(r, ExecutionResult::Okay);
    assert_eq!(cpu.r.bx, 0x0088);
    assert_eq!(cpu.bus.cycles, 6 + 11);
    cpu.r.cx = 0;
    let before = cpu.bus.cycles;
    let flags = cpu.r.flags;
    run(
        &mut cpu,
        &mut io,
        inst(0xD3, Mnemonic::ROR, 2, OperandType::Register16(Register16::BX), OperandType::Register8(Register8::CL)),
    );
    assert_eq!(cpu.r.bx, 0x0088);
    assert_eq!(cpu.r.flags, flags);
    assert_eq!(cpu.bus.cycles - before, 6);
    run(
        &mut cpu,
        &mut io,
        inst(0xD1, Mnemonic::SAR, 2, OperandType::Register16(Register16::BX), NONE),
    );
    assert_eq!(cpu.r.bx, 0x0044);
    cpu.r.ds = 0x0100;
    cpu.r.si = 0;
    cpu.r.cx = 2;
    cpu.poke_u8(lin(0x0100, 0), 0x81);
    let before = cpu.bus.cycles;
    run(
        &mut cpu,
        &mut io,
        inst(0xD2, Mnemonic::ROL, 2, OperandType::AddressingMode(AddressingMode::Si), OperandType::Register8(Register8::CL)),
    );
    assert_eq!(cpu.peek_u8(lin(0x0100, 0)), 0x06);
    // read 5 + 4, then 6 + 7, 5 for memory, write 5 + 3
    assert_eq!(cpu.bus.cycles - before, 35);
    run(
        &mut cpu,
        &mut io,
        inst(0xD0, Mnemonic::SHR, 2, OperandType::AddressingMode(AddressingMode::Si), NONE),
    );
    assert_eq!(cpu.peek_u8(lin(0x0100, 0)), 0x03);
}

#[test]
fn group3_test_not_and_neg() {
    let mut cpu = Cpu::new();
    let mut io = new_bus();
    cpu.r.bx = 0x00F0;
    run(
        &mut cpu,
        &mut io,
        inst(0xF6, Mnemonic::TEST, 3, OperandType::Register8(Register8::BL), OperandType::Immediate8(0x0F)),
    );
    assert!(cpu.r.flags.zero);
    assert_eq!(cpu.r.bx, 0x00F0);
    run(&mut cpu, &mut io, inst(0xF6, Mnemonic::NOT, 2, OperandType::Register8(Register8::BL), NONE));
    assert_eq!(cpu.r.bx, 0x000F);
    assert!(cpu.r.flags.zero);
    run(&mut cpu, &mut io, inst(0xF7, Mnemonic::NEG, 2, OperandType::Register16(Register16::BX), NONE));
    assert_eq!(cpu.r.bx, 0xFFF1);
    assert!(cpu.r.flags.carry && cpu.r.flags.sign && !cpu.r.flags.zero);
    run(
        &mut cpu,
        &mut io,
        inst(0xA8, Mnemonic::TEST, 2, OperandType::Register8(Register8::AL), OperandType::Immediate8(0xFF)),
    );
    assert!(cpu.r.flags.zero && !cpu.r.flags.carry);
    cpu.r.ax = 0x8000;
    run(
        &mut cpu,
        &mut io,
        inst(0xA9, Mnemonic::TEST, 3, OperandType::Register16(Register16::AX), OperandType::Immediate16(0x8000)),
    );
    assert!(cpu.r.flags.sign && !cpu.r.flags.zero);
    run(
        &mut cpu,
        &mut io,
        inst(0x83, Mnemonic::SUB, 3, OperandType::Register16(Register16::AX), OperandType::Immediate16(0xFFFF)),
    );
    assert_eq!(cpu.r.ax, 0x8001);
    assert!(cpu.r.flags.carry);
}

#[test]
fn esc_reads_its_operand_and_drops_it() {
    let mut cpu = Cpu::new();
    let mut io = new_bus();
    cpu.r.bx = 0x0010;
    let before = cpu.r;
    let r = run(
        &mut cpu,
        &mut io,
        inst(0xD9, Mnemonic::ESC, 2, OperandType::AddressingMode(AddressingMode::Bx), NONE),
    );
    assert_eq!(r, ExecutionResult::Okay);
    assert_eq!(cpu.r, before);
    assert_eq!(cpu.bus.cycles, 5 + 8);
    let r = run(&mut cpu, &mut io, inst(0xD8, Mnemonic::ESC, 2, OperandType::Register8(Register8::AL), NONE));
    assert_eq!(r, ExecutionResult::Okay);
    assert_eq!(cpu.bus.cycles, 13);
}

#[test]
fn unused_prefixes_are_noticed() {
    let mut cpu = Cpu::new();
    cpu.i = inst(0x50, Mnemonic::PUSH, 1, NONE, NONE);
    assert!(!cpu.segment_override_unused());
    cpu.i.segment_override = SegmentOverride::CS;
    assert!(cpu.segment_override_unused());
    cpu.i.opcode = 0x88;
    assert!(!cpu.segment_override_unused());
    cpu.i.opcode = 0xAA;
    assert!(cpu.segment_override_unused());
    assert!(!cpu.rep_prefix_unused());
    cpu.i.prefixes = OPCODE_PREFIX_REP2;
    assert!(cpu.rep_prefix_unused());
    cpu.i.mnemonic = Mnemonic::STOSB;
    assert!(!cpu.rep_prefix_unused());
}

#[test]
fn processor_state_can_be_tested() {
    let mut cpu = Cpu::new();
    assert!(cpu.is_well_formed());
    cpu.memory.pop();
    assert!(!cpu.is_well_formed());
    cpu.memory.push(0);
    for k in 0..49u16 {
        cpu.call_stack.push_back(CallStackEntry::Call(0, k, 0));
    }
    assert!(!cpu.is_well_formed());
    cpu.call_stack.pop_front();
    assert!(cpu.is_well_formed());
}
