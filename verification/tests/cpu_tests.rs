use dmd_core::bus::{AccessCode, Bus};
use dmd_core::cpu::{Cpu, F_C, F_N, F_V, F_Z};
use dmd_core::instr::{
    sign_extend_byte, sign_extend_halfword, zero_extend_byte, zero_extend_halfword, AddrMode, Data,
    Operand, R_AP, R_FP,
};
use dmd_core::optable::opcode_mnemonic;

/// Builds a processor and a bus pre-loaded with `program` at address zero,
/// then hands both to the test body.
fn do_with_program<F>(program: &[u8], test: F)
where
    F: Fn(&mut Cpu, &mut Bus),
{
    let mut cpu: Cpu = Cpu::new();
    let mut bus: Bus = Bus::new(0x10000);
    bus.load(0, program).unwrap();

    test(&mut cpu, &mut bus);
}

#[test]
fn zero_and_sign_extension() {
    assert_eq!(0xffff8000, sign_extend_halfword(0x8000));
    assert_eq!(0x00008000, zero_extend_halfword(0x8000));
    assert_eq!(0xffffff80, sign_extend_byte(0x80));
    assert_eq!(0x00000080, zero_extend_byte(0x80));
}

#[test]
fn step_is_ok() {
    let program: [u8; 10] = [
        0x87, 0xe7, 0x40, 0xe2, 0xc1, 0x04, // MOVB {sbyte}%r0,{uhalf}4(%r1)
        0x87, 0xd2, 0x30, 0x43, // MOVB *0x30(%r2),%r3
    ];

    do_with_program(&program, |cpu, bus| {
        cpu.set_register(0, 0x1f);
        cpu.set_register(1, 0x300);
        assert!(cpu.step(bus).is_ok());
        assert_eq!(0x1f, bus.read_byte(0x304, AccessCode::AddressFetch).unwrap());
    });
}

#[test]
fn can_set_and_clear_nzvc_flags() {
    let mut cpu = Cpu::new();
    cpu.set_c_flag(true);
    assert_eq!(cpu.get_psw(), F_C);
    cpu.set_v_flag(true);
    assert_eq!(cpu.get_psw(), F_C | F_V);
    cpu.set_z_flag(true);
    assert_eq!(cpu.get_psw(), F_C | F_V | F_Z);
    cpu.set_n_flag(true);
    assert_eq!(cpu.get_psw(), F_C | F_V | F_Z | F_N);
    cpu.set_c_flag(false);
    assert_eq!(cpu.get_psw(), F_V | F_Z | F_N);
    cpu.set_v_flag(false);
    assert_eq!(cpu.get_psw(), F_Z | F_N);
    cpu.set_z_flag(false);
    assert_eq!(cpu.get_psw(), F_N);
    cpu.set_n_flag(false);
    assert_eq!(cpu.get_psw(), 0);
}

#[test]
fn can_set_isc_flag() {
    let mut cpu = Cpu::new();

    for i in 0..15 {
        cpu.set_isc(i);
        assert_eq!(i << 3, cpu.get_psw());
    }

    cpu.set_isc(16); // Out of range, should wrap to zero
    assert_eq!(0, cpu.get_psw());
}

#[test]
fn decodes_byte_literal_operand() {
    let program: [u8; 2] = [0x4f, 0x06]; // BLEB 0x6

    do_with_program(&program, |cpu, bus| {
        let operand = cpu
            .decode_operand_literal(bus, &opcode_mnemonic(0x4f), 1)
            .unwrap();
        assert_eq!(
            operand,
            Operand::new(1, AddrMode::NoMode, Data::Byte, None, None, 6)
        );
    })
}

#[test]
fn decodes_halfword_literal_operand() {
    let program: [u8; 3] = [0x4e, 0xff, 0x0f]; // BLEH 0xfff

    do_with_program(&program, |cpu, bus| {
        let operand = cpu
            .decode_operand_literal(bus, &opcode_mnemonic(0x4e), 1)
            .unwrap();
        assert_eq!(
            operand,
            Operand::new(2, AddrMode::NoMode, Data::Half, None, None, 0xfff)
        );
    })
}

#[test]
fn decodes_word_literal_operand() {
    let program: [u8; 5] = [0x32, 0xff, 0x4f, 0x00, 0x00]; // SPOP 0x4fff

    do_with_program(&program, |cpu, bus| {
        let operand = cpu
            .decode_operand_literal(bus, &opcode_mnemonic(0x32), 1)
            .unwrap();
        assert_eq!(
            operand,
            Operand::new(4, AddrMode::NoMode, Data::Word, None, None, 0x4fff)
        );
    });
}

#[test]
fn decodes_positive_literal_operand() {
    let program: [u8; 3] = [0x87, 0x04, 0x44]; // MOVB &4,%r4

    do_with_program(&program, |cpu, bus| {
        let operand = cpu
            .decode_operand_descriptor(bus, Data::Byte, None, 1, false)
            .unwrap();
        assert_eq!(
            operand,
            Operand::new(1, AddrMode::PositiveLiteral, Data::Byte, None, None, 0x04)
        );
    });
}

#[test]
fn decodes_word_immediate_operand() {
    let program = [0x84, 0x4f, 0x78, 0x56, 0x34, 0x12, 0x43]; // MOVW &0x12345678,%r3

    do_with_program(&program, |cpu, bus| {
        let operand = cpu
            .decode_operand_descriptor(bus, Data::Word, None, 1, false)
            .unwrap();
        assert_eq!(
            operand,
            Operand::new(
                5,
                AddrMode::WordImmediate,
                Data::Word,
                None,
                None,
                0x12345678
            )
        );
    });
}

#[test]
fn decodes_register_operand() {
    let program: [u8; 3] = [0x87, 0x04, 0x44]; // MOVB &4,%r4

    do_with_program(&program, |cpu, bus| {
        let operand = cpu
            .decode_operand_descriptor(bus, Data::Byte, None, 2, false)
            .unwrap();
        assert_eq!(
            operand,
            Operand::new(1, AddrMode::Register, Data::Byte, None, Some(4), 0)
        );
    });
}

#[test]
fn decodes_halfword_immediate_operand() {
    let program = [0x84, 0x5f, 0x34, 0x12, 0x42]; // MOVW &0x1234,%r2

    do_with_program(&program, |cpu, bus| {
        let operand = cpu
            .decode_operand_descriptor(bus, Data::Word, None, 1, false)
            .unwrap();
        assert_eq!(
            operand,
            Operand::new(
                3,
                AddrMode::HalfwordImmediate,
                Data::Word,
                None,
                None,
                0x1234
            )
        );
    });
}

#[test]
fn decodes_register_deferred_operand() {
    let program: [u8; 3] = [0x86, 0x52, 0x41]; // MOVH (%r2),%r1

    do_with_program(&program, |cpu, bus| {
        let operand = cpu
            .decode_operand_descriptor(bus, Data::Half, None, 1, false)
            .unwrap();
        assert_eq!(
            operand,
            Operand::new(1, AddrMode::RegisterDeferred, Data::Half, None, Some(2), 0)
        );
    });
}

#[test]
fn decodes_byte_immediate_operand() {
    let program: [u8; 4] = [0x84, 0x6f, 0x28, 0x46]; // MOVW &40,%r6

    do_with_program(&program, |cpu, bus| {
        let operand = cpu
            .decode_operand_descriptor(bus, Data::Word, None, 1, false)
            .unwrap();
        assert_eq!(
            operand,
            Operand::new(2, AddrMode::ByteImmediate, Data::Word, None, None, 40)
        );
    });
}

#[test]
fn decodes_fp_short_offset_operand() {
    let program: [u8; 3] = [0x84, 0x6c, 0x40]; // MOVW 12(%fp),%r0

    do_with_program(&program, |cpu, bus| {
        let operand = cpu
            .decode_operand_descriptor(bus, Data::Word, None, 1, false)
            .unwrap();
        assert_eq!(
            operand,
            Operand::new(1, AddrMode::FPShortOffset, Data::Word, None, Some(R_FP), 12)
        );
    });
}

#[test]
fn decodes_absolute_operand() {
    let program: [u8; 7] = [0x87, 0x7f, 0x00, 0x01, 0x00, 0x00, 0x40]; // MOVB $0x100, %r0

    do_with_program(&program, |cpu, bus| {
        let operand = cpu
            .decode_operand_descriptor(bus, Data::Byte, None, 1, false)
            .unwrap();
        assert_eq!(
            operand,
            Operand::new(5, AddrMode::Absolute, Data::Byte, None, None, 0x00000100)
        );
    });
}

#[test]
fn decodes_ap_short_offset_operand() {
    let program: [u8; 3] = [0x84, 0x74, 0x43]; // MOVW 4(%ap),%r3

    do_with_program(&program, |cpu, bus| {
        let operand = cpu
            .decode_operand_descriptor(bus, Data::Word, None, 1, false)
            .unwrap();
        assert_eq!(
            operand,
            Operand::new(1, AddrMode::APShortOffset, Data::Word, None, Some(R_AP), 4)
        );
    });
}

#[test]
fn decodes_word_displacement_operand() {
    let program: [u8; 7] = [0x87, 0x82, 0x34, 0x12, 0x00, 0x00, 0x44]; // MOVB 0x1234(%r2),%r4

    do_with_program(&program, |cpu, bus| {
        let operand = cpu
            .decode_operand_descriptor(bus, Data::Byte, None, 1, false)
            .unwrap();
        assert_eq!(
            operand,
            Operand::new(
                5,
                AddrMode::WordDisplacement,
                Data::Byte,
                None,
                Some(2),
                0x1234
            )
        );
    });
}

#[test]
fn decodes_word_displacement_deferred_operand() {
    let program: [u8; 7] = [0x87, 0x92, 0x50, 0x40, 0x00, 0x00, 0x40]; // MOVB *0x4050(%r2),%r0

    do_with_program(&program, |cpu, bus| {
        let operand = cpu
            .decode_operand_descriptor(bus, Data::Byte, None, 1, false)
            .unwrap();
        assert_eq!(
            operand,
            Operand::new(
                5,
                AddrMode::WordDisplacementDeferred,
                Data::Byte,
                None,
                Some(2),
                0x4050
            )
        );
    });
}

#[test]
fn decodes_halfword_displacement_operand() {
    let program: [u8; 5] = [0x87, 0xa2, 0x34, 0x12, 0x44]; // MOVB 0x1234(%r2),%r4

    do_with_program(&program, |cpu, bus| {
        let operand = cpu
            .decode_operand_descriptor(bus, Data::Byte, None, 1, false)
            .unwrap();
        assert_eq!(
            operand,
            Operand::new(
                3,
                AddrMode::HalfwordDisplacement,
                Data::Byte,
                None,
                Some(2),
                0x1234
            )
        );
    });
}

#[test]
fn decodes_halfword_displacement_deferred_operand() {
    let program: [u8; 5] = [0x87, 0xb2, 0x50, 0x40, 0x40]; // MOVB *0x4050(%r2),%r0

    do_with_program(&program, |cpu, bus| {
        let operand = cpu
            .decode_operand_descriptor(bus, Data::Byte, None, 1, false)
            .unwrap();
        assert_eq!(
            operand,
            Operand::new(
                3,
                AddrMode::HalfwordDisplacementDeferred,
                Data::Byte,
                None,
                Some(2),
                0x4050
            )
        );
    });
}

#[test]
fn decodes_byte_displacement_operand() {
    let program: [u8; 4] = [0x87, 0xc1, 0x06, 0x40]; // MOVB 6(%r1),%r0

    do_with_program(&program, |cpu, bus| {
        let operand = cpu
            .decode_operand_descriptor(bus, Data::Byte, None, 1, false)
            .unwrap();
        assert_eq!(
            operand,
            Operand::new(2, AddrMode::ByteDisplacement, Data::Byte, None, Some(1), 6)
        );
    });
}

#[test]
fn decodes_byte_displacement_deferred_operand() {
    let program: [u8; 4] = [0x87, 0xd2, 0x30, 0x43]; // MOVB *0x30(%r2),%r3

    do_with_program(&program, |cpu, bus| {
        let operand = cpu
            .decode_operand_descriptor(bus, Data::Byte, None, 1, false)
            .unwrap();
        assert_eq!(
            operand,
            Operand::new(
                2,
                AddrMode::ByteDisplacementDeferred,
                Data::Byte,
                None,
                Some(2),
                0x30
            )
        );
    });
}

#[test]
fn decodes_expanded_type_operand() {
    let program: [u8; 6] = [0x87, 0xe7, 0x40, 0xe2, 0xc1, 0x04]; // MOVB {sbyte}%r0,{uhalf}4(%r1)

    do_with_program(&program, |cpu, bus| {
        let op1 = cpu
            .decode_operand_descriptor(bus, Data::Byte, None, 1, false)
            .unwrap();
        let op2 = cpu
            .decode_operand_descriptor(bus, Data::Byte, None, 3, false)
            .unwrap();

        assert_eq!(
            op1,
            Operand::new(
                2,
                AddrMode::Register,
                Data::Byte,
                Some(Data::SByte),
                Some(0),
                0
            )
        );
        assert_eq!(
            op2,
            Operand::new(
                3,
                AddrMode::ByteDisplacement,
                Data::Byte,
                Some(Data::UHalf),
                Some(1),
                4
            )
        );
    });
}

#[test]
fn decodes_negative_literal_operand() {
    let program: [u8; 3] = [0x87, 0xff, 0x40]; // MOVB &-1,%r0

    do_with_program(&program, |cpu, bus| {
        let operand = cpu
            .decode_operand_descriptor(bus, Data::Byte, None, 1, false)
            .unwrap();
        assert_eq!(
            operand,
            Operand::new(1, AddrMode::NegativeLiteral, Data::Byte, None, None, 0xff)
        );
    });
}

#[test]
fn decodes_instructions() {
    let program: [u8; 10] = [
        0x87, 0xe7, 0x40, 0xe2, 0xc1, 0x04, // MOVB {sbyte}%r0,{uhalf}4(%r1)
        0x87, 0xd2, 0x30, 0x43, // MOVB *0x30(%r2),%r3
    ];

    do_with_program(&program, |cpu, bus| {
        {
            cpu.set_pc(0);
            let inst = cpu.decode_instruction(bus).unwrap();
            let expected_operands = vec![
                Operand::new(
                    2,
                    AddrMode::Register,
                    Data::Byte,
                    Some(Data::SByte),
                    Some(0),
                    0,
                ),
                Operand::new(
                    3,
                    AddrMode::ByteDisplacement,
                    Data::Byte,
                    Some(Data::UHalf),
                    Some(1),
                    4,
                ),
            ];
            assert_eq!(inst.bytes, 6);
            assert_eq!(inst.mnemonic, opcode_mnemonic(0x87));
            assert_eq!(inst.operands, expected_operands);
        }
        {
            cpu.set_pc(6);
            let inst = cpu.decode_instruction(bus).unwrap();
            let expected_operands = vec![
                Operand::new(
                    2,
                    AddrMode::ByteDisplacementDeferred,
                    Data::Byte,
                    None,
                    Some(2),
                    0x30,
                ),
                Operand::new(1, AddrMode::Register, Data::Byte, None, Some(3), 0),
            ];
            assert_eq!(inst.bytes, 4);
            assert_eq!(inst.mnemonic, opcode_mnemonic(0x87));
            assert_eq!(inst.operands, expected_operands);
        }
    })
}

#[test]
fn reads_register_operand_data() {
    {
        let program = [0x87, 0xe7, 0x40, 0xe2, 0x41]; // MOVB {sbyte}%r0,{uhalf}%r1
        do_with_program(&program, |cpu, bus| {
            cpu.set_register(0, 0xff);
            let op = cpu
                .decode_operand_descriptor(bus, Data::Byte, None, 1, false)
                .unwrap();
            assert_eq!(0xffffffff, cpu.read_op(bus, &op).unwrap());
        });
    }

    {
        let program = [0x87, 0x40, 0x41]; // MOVB %r0,%r1
        do_with_program(&program, |cpu, bus| {
            cpu.set_register(0, 0xff);
            let op = cpu
                .decode_operand_descriptor(bus, Data::Byte, None, 1, false)
                .unwrap();
            assert_eq!(0xff, cpu.read_op(bus, &op).unwrap());
        });
    }
}

#[test]
fn reads_positive_literal_operand_data() {
    let program = [0x87, 0x04, 0x44];
    do_with_program(&program, |cpu, bus| {
        let op = cpu
            .decode_operand_descriptor(bus, Data::Byte, None, 1, false)
            .unwrap();
        assert_eq!(4, cpu.read_op(bus, &op).unwrap() as i8);
    });
}

#[test]
fn reads_negative_literal_operand_data() {
    let program = [0x87, 0xff, 0x44];
    do_with_program(&program, |cpu, bus| {
        let op = cpu
            .decode_operand_descriptor(bus, Data::Byte, None, 1, false)
            .unwrap();
        assert_eq!(-1, cpu.read_op(bus, &op).unwrap() as i8);
    });
}

#[test]
fn reads_word_immediate_operand_data() {
    let program = [0x84, 0x4f, 0x78, 0x56, 0x34, 0x12, 0x43]; // MOVW &0x12345678,%r3
    do_with_program(&program, |cpu, bus| {
        let op = cpu
            .decode_operand_descriptor(bus, Data::Word, None, 1, false)
            .unwrap();
        assert_eq!(0x12345678, cpu.read_op(bus, &op).unwrap())
    });
}

#[test]
fn reads_halfword_immediate_operand_data() {
    let program = [0x84, 0x5f, 0x34, 0x12, 0x42]; // MOVW &0x1234,%r2
    do_with_program(&program, |cpu, bus| {
        let op = cpu
            .decode_operand_descriptor(bus, Data::Word, None, 1, false)
            .unwrap();
        assert_eq!(0x1234, cpu.read_op(bus, &op).unwrap())
    });
}

#[test]
fn reads_negative_halfword_immediate_operand_data() {
    let program = [0x84, 0x5f, 0x00, 0x80, 0x42]; // MOVW &0x8000,%r2
    do_with_program(&program, |cpu, bus| {
        let op = cpu
            .decode_operand_descriptor(bus, Data::Word, None, 1, false)
            .unwrap();
        assert_eq!(0xffff8000, cpu.read_op(bus, &op).unwrap())
    });
}

#[test]
fn reads_byte_immediate_operand_data() {
    let program = [0x84, 0x6f, 0x28, 0x42]; // MOVW &40,%r2
    do_with_program(&program, |cpu, bus| {
        let op = cpu
            .decode_operand_descriptor(bus, Data::Word, None, 1, false)
            .unwrap();
        assert_eq!(40, cpu.read_op(bus, &op).unwrap())
    });
}

#[test]
fn reads_negative_byte_immediate_operand_data() {
    let program = [0x84, 0x6f, 0xff, 0x42]; // MOVW &-1,%r2
    do_with_program(&program, |cpu, bus| {
        let op = cpu
            .decode_operand_descriptor(bus, Data::Word, None, 1, false)
            .unwrap();
        assert_eq!(-1, cpu.read_op(bus, &op).unwrap() as i32)
    });
}

#[test]
fn reads_absolute_operand_data() {
    let program = [0x87, 0x7f, 0x00, 0x01, 0x00, 0x00, 0x40]; // MOVB $0x100,%r0
    do_with_program(&program, |cpu, bus| {
        bus.write_byte(0x100, 0xab).unwrap();
        let op = cpu
            .decode_operand_descriptor(bus, Data::Byte, None, 1, false)
            .unwrap();
        assert_eq!(0xab, cpu.read_op(bus, &op).unwrap());
    });
}
