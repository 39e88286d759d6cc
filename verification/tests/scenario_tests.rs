use dmd_core::bus::{AccessCode, Bus};
use dmd_core::cpu::Cpu;
use dmd_core::err::{BusError, CpuError, CpuException};

/// Builds a processor and a bus pre-loaded with `program` at address zero.
fn setup(program: &[u8]) -> (Cpu, Bus) {
    let mut cpu = Cpu::new();
    let mut bus = Bus::new(0x10000);
    bus.load(0, program).unwrap();
    cpu.set_pc(0);
    (cpu, bus)
}

#[test]
fn movb_expanded_types_end_to_end() {
    // MOVB {sbyte}%r0,{uhalf}4(%r1) with R0=0x1F, R1=0x300:
    // the byte at 0x304 becomes 0x1F.
    let (mut cpu, mut bus) = setup(&[0x87, 0xe7, 0x40, 0xe2, 0xc1, 0x04]);
    cpu.set_register(0, 0x1f);
    cpu.set_register(1, 0x300);
    assert!(cpu.step(&mut bus).is_ok());
    assert_eq!(0x1f, bus.read_byte(0x304, AccessCode::AddressFetch).unwrap());
}

#[test]
fn movw_word_immediate_end_to_end() {
    // MOVW &0x12345678,%r3 loads the full word into R3.
    let (mut cpu, mut bus) = setup(&[0x84, 0x4f, 0x78, 0x56, 0x34, 0x12, 0x43]);
    assert!(cpu.step(&mut bus).is_ok());
    assert_eq!(0x12345678, cpu.get_register(3));
}

#[test]
fn movw_halfword_immediate_sign_extends() {
    // MOVW &0x8000,%r2: the halfword immediate is sign-extended.
    let (mut cpu, mut bus) = setup(&[0x84, 0x5f, 0x00, 0x80, 0x42]);
    assert!(cpu.step(&mut bus).is_ok());
    assert_eq!(0xffff8000, cpu.get_register(2));
}

#[test]
fn movb_negative_literal_end_to_end() {
    // MOVB &-1,%r4: the low byte of R4 reads back as -1.
    let (mut cpu, mut bus) = setup(&[0x87, 0xff, 0x44]);
    assert!(cpu.step(&mut bus).is_ok());
    assert_eq!(-1, cpu.get_register(4) as u8 as i8);
}

#[test]
fn movb_byte_displacement_deferred_end_to_end() {
    // MOVB *0x30(%r2),%r3: the word at R2+0x30 points at a byte of 0xAA,
    // which lands in the low byte of R3.
    let (mut cpu, mut bus) = setup(&[0x87, 0xd2, 0x30, 0x43]);
    cpu.set_register(2, 0x1000);
    bus.write_word(0x1030, 0x2000).unwrap();
    bus.write_byte(0x2000, 0xaa).unwrap();
    assert!(cpu.step(&mut bus).is_ok());
    assert_eq!(0xaa, cpu.get_register(3) & 0xff);
}

#[test]
fn decoded_length_is_prefix_plus_operand_sizes() {
    // The total byte count of a decoded instruction always equals the
    // opcode prefix length plus the sum of the operand sizes.
    let programs: [(&[u8], u8); 4] = [
        (&[0x87, 0xe7, 0x40, 0xe2, 0xc1, 0x04], 6), // two expanded operands
        (&[0x84, 0x4f, 0x78, 0x56, 0x34, 0x12, 0x43], 7), // word immediate + register
        (&[0x70], 1),                               // NOP, no operands
        (&[0x4f, 0x06], 2),                         // BLEB with a byte literal
    ];
    for (program, expected) in programs.iter() {
        let (cpu, bus) = setup(program);
        let inst = cpu.decode_instruction(&bus).unwrap();
        assert_eq!(*expected, inst.bytes);
        let total: u32 = inst.operands.iter().map(|o| o.size as u32).sum();
        assert_eq!(inst.bytes as u32, 1 + total);
    }
}

#[test]
fn expanded_type_applies_to_one_operand_only() {
    // MOVB {sbyte}%r0,%r1: the prefix types only the operand it precedes;
    // the following operand keeps the mnemonic's intrinsic width.
    let (cpu, bus) = setup(&[0x87, 0xe7, 0x40, 0x41]);
    let inst = cpu.decode_instruction(&bus).unwrap();
    assert_eq!(2, inst.operands.len());
    assert_eq!(Some(dmd_core::instr::Data::SByte), inst.operands[0].expanded_type);
    assert_eq!(None, inst.operands[1].expanded_type);
}

#[test]
fn nested_expanded_prefix_is_illegal() {
    // An expanded-type prefix directly inside another is illegal.
    let (cpu, bus) = setup(&[0x87, 0xe7, 0xe2, 0x40, 0x41]);
    let r = cpu.decode_operand_descriptor(&bus, dmd_core::instr::Data::Byte, None, 1, false);
    assert_eq!(
        r,
        Err(CpuError::Exception(CpuException::IllegalOpcode))
    );
}

#[test]
fn undefined_expansion_selector_is_illegal() {
    // Selector 1 names no replacement width.
    let (cpu, bus) = setup(&[0x87, 0xe1, 0x40, 0x41]);
    let r = cpu.decode_operand_descriptor(&bus, dmd_core::instr::Data::Byte, None, 1, false);
    assert_eq!(
        r,
        Err(CpuError::Exception(CpuException::IllegalOpcode))
    );
}

#[test]
fn illegal_descriptor_cells_raise_illegal_opcode() {
    // Register nibble 11 is illegal with mode nibble 5 and with every mode
    // nibble from 8 through 13.
    for m in [5u8, 8, 9, 10, 11, 12, 13] {
        let program = [0x87, (m << 4) | 0x0b, 0x00, 0x00, 0x00, 0x00];
        let (cpu, bus) = setup(&program);
        let r = cpu.decode_operand_descriptor(&bus, dmd_core::instr::Data::Byte, None, 1, false);
        assert_eq!(
            r,
            Err(CpuError::Exception(CpuException::IllegalOpcode)),
            "mode nibble {}",
            m
        );
    }
}

#[test]
fn halfword_opcode_decodes_through_prefix() {
    // 0x30 0x09 is MVERNO: two bytes, no operands.
    let (cpu, bus) = setup(&[0x30, 0x09]);
    let inst = cpu.decode_instruction(&bus).unwrap();
    assert_eq!(2, inst.bytes);
    assert_eq!(0x09, inst.mnemonic.opcode);
    assert_eq!("MVERNO", inst.mnemonic.name);
    assert_eq!(0, inst.operands.len());
}

#[test]
fn halfword_opcode_outside_table_is_illegal() {
    let (cpu, bus) = setup(&[0x30, 0x01]);
    assert_eq!(
        cpu.decode_instruction(&bus),
        Err(CpuError::Exception(CpuException::IllegalOpcode))
    );
}

#[test]
fn unassigned_opcode_decodes_but_does_not_execute() {
    // Opcode 0x01 has no assignment: it decodes to a one-byte instruction
    // with no operands, but stepping it raises IllegalOpcode.
    let (mut cpu, mut bus) = setup(&[0x01]);
    let inst = cpu.decode_instruction(&bus).unwrap();
    assert_eq!(1, inst.bytes);
    assert_eq!("???", inst.mnemonic.name);
    assert_eq!(0, inst.operands.len());
    assert_eq!(
        cpu.step(&mut bus),
        Err(CpuError::Exception(CpuException::IllegalOpcode))
    );
}

#[test]
fn extop_decodes_without_raising() {
    // Opcode 0x14 (EXTOP) is reserved: decoding must not raise.
    let (cpu, bus) = setup(&[0x14]);
    let inst = cpu.decode_instruction(&bus).unwrap();
    assert_eq!("EXTOP", inst.mnemonic.name);
    assert_eq!(1, inst.bytes);
}

#[test]
fn literal_role_with_no_width_is_illegal() {
    // A mnemonic of width NoData cannot supply a literal operand.
    let (cpu, bus) = setup(&[0x00, 0x42]);
    let r = cpu.decode_operand_literal(&bus, &dmd_core::optable::opcode_mnemonic(0x00), 1);
    assert_eq!(
        r,
        Err(CpuError::Exception(CpuException::IllegalOpcode))
    );
}

#[test]
fn reset_loads_process_control_block() {
    let mut cpu = Cpu::new();
    let mut bus = Bus::new(0x10000);
    // Word at 0x80 points at the process control block at 0x1000.
    bus.write_word(0x80, 0x1000).unwrap();
    bus.write_word(0x1000, 0x0004_0000).unwrap(); // PSW (I bit clear)
    bus.write_word(0x1004, 0x2000).unwrap(); // PC
    bus.write_word(0x1008, 0x3000).unwrap(); // SP
    assert!(cpu.reset(&bus).is_ok());
    assert_eq!(0x1000, cpu.get_register(13));
    assert_eq!(0x2000, cpu.get_pc());
    assert_eq!(0x3000, cpu.get_register(12));
    // ISC becomes 3: bits 3..6 hold 3.
    assert_eq!(0x0004_0000 | (3 << 3), cpu.get_psw());
}

#[test]
fn reset_consumes_initial_context_flag() {
    let mut cpu = Cpu::new();
    let mut bus = Bus::new(0x10000);
    bus.write_word(0x80, 0x1000).unwrap();
    bus.write_word(0x1000, 0x80).unwrap(); // PSW with the I bit set
    bus.write_word(0x1004, 0x2000).unwrap();
    bus.write_word(0x1008, 0x3000).unwrap();
    assert!(cpu.reset(&bus).is_ok());
    // The I bit is cleared and PCBP advances by 12.
    assert_eq!(0x100c, cpu.get_register(13));
    assert_eq!(3 << 3, cpu.get_psw());
}

#[test]
fn reset_propagates_bus_errors() {
    let mut cpu = Cpu::new();
    let bus = Bus::new(0x10); // too small to hold the vector at 0x80
    assert_eq!(cpu.reset(&bus), Err(CpuError::Bus(BusError::NoDevice)));
}

#[test]
fn step_does_not_advance_pc() {
    let (mut cpu, mut bus) = setup(&[0x84, 0x4f, 0x78, 0x56, 0x34, 0x12, 0x43]);
    assert!(cpu.step(&mut bus).is_ok());
    assert_eq!(0, cpu.get_pc());
}

#[test]
fn set_priv_level_moves_mode_to_previous() {
    let mut cpu = Cpu::new();
    cpu.set_priv_level(3); // Kernel
    assert_eq!(3 << 11, cpu.get_psw());
    cpu.set_priv_level(1);
    // The old current mode lands in the previous-mode field.
    assert_eq!((1 << 11) | (3 << 9), cpu.get_psw());
}

#[test]
fn reads_fp_short_offset_operand_data() {
    // MOVW 12(%fp),%r0 with FP=0x200 reads the word at 0x20c.
    let (mut cpu, mut bus) = setup(&[0x84, 0x6c, 0x40]);
    cpu.set_register(9, 0x200);
    bus.write_word(0x20c, 0xcafe).unwrap();
    assert!(cpu.step(&mut bus).is_ok());
    assert_eq!(0xcafe, cpu.get_register(0));
}

#[test]
fn effective_address_wraps_modulo_two_pow_32() {
    // MOVB 6(%r1),%r0 with R1=0xFFFFFFFF: the effective address wraps to 5.
    let (mut cpu, mut bus) = setup(&[0x87, 0xc1, 0x06, 0x40]);
    cpu.set_register(1, 0xffff_ffff);
    bus.write_byte(0x05, 0x77).unwrap();
    assert!(cpu.step(&mut bus).is_ok());
    assert_eq!(0x77, cpu.get_register(0));
}

#[test]
fn write_to_literal_operand_is_illegal() {
    // MOVB %r0,&4 would write into a literal; the step fails.
    let (mut cpu, mut bus) = setup(&[0x87, 0x40, 0x04]);
    assert_eq!(
        cpu.step(&mut bus),
        Err(CpuError::Exception(CpuException::IllegalOpcode))
    );
}
