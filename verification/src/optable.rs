use vstd::prelude::*;

use crate::instr::{Data, Mnemonic, OpType};

verus! {

/// Ghost description of one primary-table entry: the data width, the
/// ordered operand roles, and the display name.
pub ghost struct MnemonicSpec {
    pub dtype: Data,
    pub roles: Seq<OpType>,
    pub name: &'static str,
}

pub open spec fn mi0(dtype: Data, name: &'static str) -> MnemonicSpec {
    MnemonicSpec { dtype, roles: Seq::empty(), name }
}

pub open spec fn mi1(dtype: Data, a: OpType, name: &'static str) -> MnemonicSpec {
    MnemonicSpec { dtype, roles: Seq::empty().push(a), name }
}

pub open spec fn mi2(dtype: Data, a: OpType, b: OpType, name: &'static str) -> MnemonicSpec {
    MnemonicSpec { dtype, roles: Seq::empty().push(a).push(b), name }
}

pub open spec fn mi3(dtype: Data, a: OpType, b: OpType, c: OpType, name: &'static str) -> MnemonicSpec {
    MnemonicSpec { dtype, roles: Seq::empty().push(a).push(b).push(c), name }
}

pub open spec fn mi4(
    dtype: Data,
    a: OpType,
    b: OpType,
    c: OpType,
    d: OpType,
    name: &'static str,
) -> MnemonicSpec {
    MnemonicSpec { dtype, roles: Seq::empty().push(a).push(b).push(c).push(d), name }
}

/// The primary opcode table: what each of the 256 one-byte opcodes is.
/// Unassigned opcodes carry the sentinel name "???", width `NoData`, and an
/// empty role list.
pub open spec fn op_info(b: u8) -> MnemonicSpec {
    match b {
        0x00 => mi0(Data::NoData, "halt"),
        0x01 => mi0(Data::NoData, "???"),
        0x02 => mi2(Data::Word, OpType::Lit, OpType::Src, "SPOPRD"),
        0x03 => mi3(Data::Word, OpType::Lit, OpType::Src, OpType::Dest, "SPOPRD2"),
        0x04 => mi2(Data::Word, OpType::Src, OpType::Dest, "MOVAW"),
        0x05 => mi0(Data::NoData, "???"),
        0x06 => mi2(Data::Word, OpType::Lit, OpType::Src, "SPOPRT"),
        0x07 => mi3(Data::Word, OpType::Lit, OpType::Src, OpType::Dest, "SPOPT2"),
        0x08 => mi0(Data::NoData, "RET"),
        0x09 => mi0(Data::NoData, "???"),
        0x0A => mi0(Data::NoData, "???"),
        0x0B => mi0(Data::NoData, "???"),
        0x0C => mi2(Data::Word, OpType::Src, OpType::Dest, "MOVTRW"),
        0x0D => mi0(Data::NoData, "???"),
        0x0E => mi0(Data::NoData, "???"),
        0x0F => mi0(Data::NoData, "???"),
        0x10 => mi1(Data::Word, OpType::Src, "SAVE"),
        0x11 => mi0(Data::NoData, "???"),
        0x12 => mi0(Data::NoData, "???"),
        0x13 => mi2(Data::Word, OpType::Lit, OpType::Dest, "SPOPWD"),
        0x14 => mi0(Data::Byte, "EXTOP"),
        0x15 => mi0(Data::NoData, "???"),
        0x16 => mi0(Data::NoData, "???"),
        0x17 => mi2(Data::Word, OpType::Lit, OpType::Dest, "SPOPWT"),
        0x18 => mi1(Data::NoData, OpType::Src, "RESTORE"),
        0x19 => mi0(Data::NoData, "???"),
        0x1A => mi0(Data::NoData, "???"),
        0x1B => mi0(Data::NoData, "???"),
        0x1C => mi1(Data::Word, OpType::Dest, "SWAPWI"),
        0x1D => mi0(Data::NoData, "???"),
        0x1E => mi1(Data::Half, OpType::Dest, "SWAPHI"),
        0x1F => mi1(Data::Byte, OpType::Dest, "SWAPBI"),
        0x20 => mi1(Data::Word, OpType::Src, "POPW"),
        0x21 => mi0(Data::NoData, "???"),
        0x22 => mi2(Data::Word, OpType::Lit, OpType::Src, "SPOPRS"),
        0x23 => mi3(Data::Word, OpType::Lit, OpType::Src, OpType::Dest, "SPOPS2"),
        0x24 => mi1(Data::Word, OpType::Dest, "JMP"),
        0x25 => mi0(Data::NoData, "???"),
        0x26 => mi0(Data::NoData, "???"),
        0x27 => mi0(Data::NoData, "CFLUSH"),
        0x28 => mi1(Data::Word, OpType::Src, "TSTW"),
        0x29 => mi0(Data::NoData, "???"),
        0x2A => mi1(Data::Half, OpType::Src, "TSTH"),
        0x2B => mi1(Data::Byte, OpType::Src, "TSTB"),
        0x2C => mi2(Data::Word, OpType::Src, OpType::Dest, "CALL"),
        0x2D => mi0(Data::NoData, "???"),
        0x2E => mi0(Data::NoData, "BPT"),
        0x2F => mi0(Data::NoData, "WAIT"),
        0x30 => mi0(Data::NoData, "???"),
        0x31 => mi0(Data::NoData, "???"),
        0x32 => mi1(Data::Word, OpType::Lit, "SPOP"),
        0x33 => mi2(Data::Word, OpType::Lit, OpType::Dest, "SPOPWS"),
        0x34 => mi1(Data::Word, OpType::Dest, "JSB"),
        0x35 => mi0(Data::NoData, "???"),
        0x36 => mi1(Data::Half, OpType::Lit, "BSBH"),
        0x37 => mi1(Data::Byte, OpType::Lit, "BSBB"),
        0x38 => mi2(Data::Word, OpType::Src, OpType::Src, "BITW"),
        0x39 => mi0(Data::NoData, "???"),
        0x3A => mi2(Data::Half, OpType::Src, OpType::Src, "BITH"),
        0x3B => mi2(Data::Byte, OpType::Src, OpType::Src, "BITB"),
        0x3C => mi2(Data::Word, OpType::Src, OpType::Src, "CMPW"),
        0x3D => mi0(Data::NoData, "???"),
        0x3E => mi2(Data::Half, OpType::Src, OpType::Src, "CMPH"),
        0x3F => mi2(Data::Byte, OpType::Src, OpType::Src, "CMPB"),
        0x40 => mi0(Data::NoData, "RGEQ"),
        0x41 => mi0(Data::NoData, "???"),
        0x42 => mi1(Data::Half, OpType::Lit, "BGEH"),
        0x43 => mi1(Data::Byte, OpType::Lit, "BGEB"),
        0x44 => mi0(Data::NoData, "RGTR"),
        0x45 => mi0(Data::NoData, "???"),
        0x46 => mi1(Data::Half, OpType::Lit, "BGH"),
        0x47 => mi1(Data::Byte, OpType::Lit, "BGB"),
        0x48 => mi0(Data::NoData, "RLSS"),
        0x49 => mi0(Data::NoData, "???"),
        0x4A => mi1(Data::Half, OpType::Lit, "BLH"),
        0x4B => mi1(Data::Byte, OpType::Lit, "BLB"),
        0x4C => mi0(Data::NoData, "RLEQ"),
        0x4D => mi0(Data::NoData, "???"),
        0x4E => mi1(Data::Half, OpType::Lit, "BLEH"),
        0x4F => mi1(Data::Byte, OpType::Lit, "BLEB"),
        0x50 => mi0(Data::NoData, "RGEQU"),
        0x51 => mi0(Data::NoData, "???"),
        0x52 => mi1(Data::Half, OpType::Lit, "BGEUH"),
        0x53 => mi1(Data::Byte, OpType::Lit, "BGEUB"),
        0x54 => mi0(Data::NoData, "RGTRU"),
        0x55 => mi0(Data::NoData, "???"),
        0x56 => mi1(Data::Half, OpType::Lit, "BGUH"),
        0x57 => mi1(Data::Byte, OpType::Lit, "BGUB"),
        0x58 => mi0(Data::NoData, "RLSSU"),
        0x59 => mi0(Data::NoData, "???"),
        0x5A => mi1(Data::Half, OpType::Lit, "BLUH"),
        0x5B => mi1(Data::Byte, OpType::Lit, "BLUB"),
        0x5C => mi0(Data::NoData, "RLEQU"),
        0x5D => mi0(Data::NoData, "???"),
        0x5E => mi1(Data::Half, OpType::Lit, "BLEUH"),
        0x5F => mi1(Data::Byte, OpType::Lit, "BLEUB"),
        0x60 => mi0(Data::NoData, "RVC"),
        0x61 => mi0(Data::NoData, "???"),
        0x62 => mi1(Data::Half, OpType::Lit, "BVCH"),
        0x63 => mi1(Data::Byte, OpType::Lit, "BVCB"),
        0x64 => mi0(Data::NoData, "RNEQU"),
        0x65 => mi0(Data::NoData, "???"),
        0x66 => mi1(Data::Half, OpType::Lit, "BNEH"),
        0x67 => mi1(Data::Byte, OpType::Lit, "BNEB"),
        0x68 => mi0(Data::NoData, "RVS"),
        0x69 => mi0(Data::NoData, "???"),
        0x6A => mi1(Data::Half, OpType::Lit, "BVSH"),
        0x6B => mi1(Data::Byte, OpType::Lit, "BVSB"),
        0x6C => mi0(Data::NoData, "REQLU"),
        0x6D => mi0(Data::NoData, "???"),
        0x6E => mi1(Data::Half, OpType::Lit, "BEH"),
        0x6F => mi1(Data::Byte, OpType::Lit, "BEB"),
        0x70 => mi0(Data::NoData, "NOP"),
        0x71 => mi0(Data::NoData, "???"),
        0x72 => mi0(Data::NoData, "NOP3"),
        0x73 => mi0(Data::NoData, "NOP2"),
        0x74 => mi0(Data::NoData, "RNEQ"),
        0x75 => mi0(Data::NoData, "???"),
        0x76 => mi1(Data::Half, OpType::Lit, "BNEH"),
        0x77 => mi1(Data::Byte, OpType::Lit, "BNEB"),
        0x78 => mi0(Data::NoData, "RSB"),
        0x79 => mi0(Data::NoData, "???"),
        0x7A => mi1(Data::Half, OpType::Lit, "BRH"),
        0x7B => mi1(Data::Byte, OpType::Lit, "BRB"),
        0x7C => mi0(Data::NoData, "REQL"),
        0x7D => mi0(Data::NoData, "???"),
        0x7E => mi1(Data::Half, OpType::Lit, "BEH"),
        0x7F => mi1(Data::Byte, OpType::Lit, "BEB"),
        0x80 => mi1(Data::Word, OpType::Dest, "CLRW"),
        0x81 => mi0(Data::NoData, "???"),
        0x82 => mi1(Data::Half, OpType::Dest, "CLRH"),
        0x83 => mi1(Data::Byte, OpType::Dest, "CLRB"),
        0x84 => mi2(Data::Word, OpType::Src, OpType::Dest, "MOVW"),
        0x85 => mi0(Data::NoData, "???"),
        0x86 => mi2(Data::Half, OpType::Src, OpType::Dest, "MOVH"),
        0x87 => mi2(Data::Byte, OpType::Src, OpType::Dest, "MOVB"),
        0x88 => mi2(Data::Word, OpType::Src, OpType::Dest, "MCOMW"),
        0x89 => mi0(Data::NoData, "???"),
        0x8A => mi2(Data::Half, OpType::Src, OpType::Dest, "MCOMH"),
        0x8B => mi2(Data::Byte, OpType::Src, OpType::Dest, "MCOMB"),
        0x8C => mi2(Data::Word, OpType::Src, OpType::Dest, "MNEGW"),
        0x8D => mi0(Data::NoData, "???"),
        0x8E => mi2(Data::Half, OpType::Src, OpType::Dest, "MNEGH"),
        0x8F => mi2(Data::Byte, OpType::Src, OpType::Dest, "MNEGB"),
        0x90 => mi1(Data::Word, OpType::Dest, "INCW"),
        0x91 => mi0(Data::NoData, "???"),
        0x92 => mi1(Data::Half, OpType::Dest, "INCH"),
        0x93 => mi1(Data::Byte, OpType::Dest, "INCB"),
        0x94 => mi1(Data::Word, OpType::Dest, "DECW"),
        0x95 => mi0(Data::NoData, "???"),
        0x96 => mi1(Data::Half, OpType::Dest, "DECH"),
        0x97 => mi1(Data::Byte, OpType::Dest, "DECB"),
        0x98 => mi0(Data::NoData, "???"),
        0x99 => mi0(Data::NoData, "???"),
        0x9A => mi0(Data::NoData, "???"),
        0x9B => mi0(Data::NoData, "???"),
        0x9C => mi2(Data::Word, OpType::Src, OpType::Dest, "ADDW2"),
        0x9D => mi0(Data::NoData, "???"),
        0x9E => mi2(Data::Half, OpType::Src, OpType::Dest, "ADDH2"),
        0x9F => mi2(Data::Byte, OpType::Src, OpType::Dest, "ADDB2"),
        0xA0 => mi1(Data::Word, OpType::Src, "PUSHW"),
        0xA1 => mi0(Data::NoData, "???"),
        0xA2 => mi0(Data::NoData, "???"),
        0xA3 => mi0(Data::NoData, "???"),
        0xA4 => mi2(Data::Word, OpType::Src, OpType::Dest, "MODW2"),
        0xA5 => mi0(Data::NoData, "???"),
        0xA6 => mi2(Data::Half, OpType::Src, OpType::Dest, "MODH2"),
        0xA7 => mi2(Data::Byte, OpType::Src, OpType::Dest, "MODB2"),
        0xA8 => mi2(Data::Word, OpType::Src, OpType::Dest, "MULW2"),
        0xA9 => mi0(Data::NoData, "???"),
        0xAA => mi2(Data::Half, OpType::Src, OpType::Dest, "MULH2"),
        0xAB => mi2(Data::Byte, OpType::Src, OpType::Dest, "MULB2"),
        0xAC => mi2(Data::Word, OpType::Src, OpType::Dest, "DIVW2"),
        0xAD => mi0(Data::NoData, "???"),
        0xAE => mi2(Data::Half, OpType::Src, OpType::Dest, "DIVH2"),
        0xAF => mi2(Data::Byte, OpType::Src, OpType::Dest, "DIVB2"),
        0xB0 => mi2(Data::Word, OpType::Src, OpType::Dest, "ORW2"),
        0xB1 => mi0(Data::NoData, "???"),
        0xB2 => mi2(Data::Half, OpType::Src, OpType::Dest, "ORH2"),
        0xB3 => mi2(Data::Byte, OpType::Src, OpType::Dest, "ORB2"),
        0xB4 => mi2(Data::Word, OpType::Src, OpType::Dest, "XORW2"),
        0xB5 => mi0(Data::NoData, "???"),
        0xB6 => mi2(Data::Half, OpType::Src, OpType::Dest, "XORH2"),
        0xB7 => mi2(Data::Byte, OpType::Src, OpType::Dest, "XORB2"),
        0xB8 => mi2(Data::Word, OpType::Src, OpType::Dest, "ANDW2"),
        0xB9 => mi0(Data::NoData, "???"),
        0xBA => mi2(Data::Half, OpType::Src, OpType::Dest, "ANDH2"),
        0xBB => mi2(Data::Byte, OpType::Src, OpType::Dest, "ANDB2"),
        0xBC => mi2(Data::Word, OpType::Src, OpType::Dest, "SUBW2"),
        0xBD => mi0(Data::NoData, "???"),
        0xBE => mi2(Data::Half, OpType::Src, OpType::Dest, "SUBH2"),
        0xBF => mi2(Data::Byte, OpType::Src, OpType::Dest, "SUBB2"),
        0xC0 => mi3(Data::Word, OpType::Src, OpType::Src, OpType::Dest, "ALSW3"),
        0xC1 => mi0(Data::NoData, "???"),
        0xC2 => mi0(Data::NoData, "???"),
        0xC3 => mi0(Data::NoData, "???"),
        0xC4 => mi3(Data::Word, OpType::Src, OpType::Src, OpType::Dest, "ARSW3"),
        0xC5 => mi0(Data::NoData, "???"),
        0xC6 => mi3(Data::Half, OpType::Src, OpType::Src, OpType::Dest, "ARSH3"),
        0xC7 => mi3(Data::Byte, OpType::Src, OpType::Src, OpType::Dest, "ARSB3"),
        0xC8 => mi4(Data::Word, OpType::Src, OpType::Src, OpType::Src, OpType::Dest, "INSFW"),
        0xC9 => mi0(Data::NoData, "???"),
        0xCA => mi4(Data::Half, OpType::Src, OpType::Src, OpType::Src, OpType::Dest, "INSFH"),
        0xCB => mi4(Data::Byte, OpType::Src, OpType::Src, OpType::Src, OpType::Dest, "INSFB"),
        0xCC => mi4(Data::Word, OpType::Src, OpType::Src, OpType::Src, OpType::Dest, "EXTFW"),
        0xCD => mi0(Data::NoData, "???"),
        0xCE => mi4(Data::Half, OpType::Src, OpType::Src, OpType::Src, OpType::Dest, "EXTFH"),
        0xCF => mi4(Data::Byte, OpType::Src, OpType::Src, OpType::Src, OpType::Dest, "EXTFB"),
        0xD0 => mi3(Data::Word, OpType::Src, OpType::Src, OpType::Dest, "LLSW3"),
        0xD1 => mi0(Data::NoData, "???"),
        0xD2 => mi3(Data::Half, OpType::Src, OpType::Src, OpType::Dest, "LLSH3"),
        0xD3 => mi3(Data::Byte, OpType::Src, OpType::Src, OpType::Dest, "LLSB3"),
        0xD4 => mi3(Data::Word, OpType::Src, OpType::Src, OpType::Dest, "LRSW3"),
        0xD5 => mi0(Data::NoData, "???"),
        0xD6 => mi0(Data::NoData, "???"),
        0xD7 => mi0(Data::NoData, "???"),
        0xD8 => mi3(Data::Word, OpType::Src, OpType::Src, OpType::Dest, "ROTW"),
        0xD9 => mi0(Data::NoData, "???"),
        0xDA => mi0(Data::NoData, "???"),
        0xDB => mi0(Data::NoData, "???"),
        0xDC => mi3(Data::Word, OpType::Src, OpType::Src, OpType::Dest, "ADDW3"),
        0xDD => mi0(Data::NoData, "???"),
        0xDE => mi3(Data::Half, OpType::Src, OpType::Src, OpType::Dest, "ADDH3"),
        0xDF => mi3(Data::Byte, OpType::Src, OpType::Src, OpType::Dest, "ADDB3"),
        0xE0 => mi1(Data::Word, OpType::Src, "PUSHAW"),
        0xE1 => mi0(Data::NoData, "???"),
        0xE2 => mi0(Data::NoData, "???"),
        0xE3 => mi0(Data::NoData, "???"),
        0xE4 => mi3(Data::Word, OpType::Src, OpType::Src, OpType::Dest, "MODW3"),
        0xE5 => mi0(Data::NoData, "???"),
        0xE6 => mi3(Data::Half, OpType::Src, OpType::Src, OpType::Dest, "MODH3"),
        0xE7 => mi3(Data::Byte, OpType::Src, OpType::Src, OpType::Dest, "MODB3"),
        0xE8 => mi3(Data::Word, OpType::Src, OpType::Src, OpType::Dest, "MULW3"),
        0xE9 => mi0(Data::NoData, "???"),
        0xEA => mi3(Data::Half, OpType::Src, OpType::Src, OpType::Dest, "MULH3"),
        0xEB => mi3(Data::Byte, OpType::Src, OpType::Src, OpType::Dest, "MULB3"),
        0xEC => mi3(Data::Word, OpType::Src, OpType::Src, OpType::Dest, "DIVW3"),
        0xED => mi0(Data::NoData, "???"),
        0xEE => mi3(Data::Half, OpType::Src, OpType::Src, OpType::Dest, "DIVH3"),
        0xEF => mi3(Data::Byte, OpType::Src, OpType::Src, OpType::Dest, "DIVB3"),
        0xF0 => mi3(Data::Word, OpType::Src, OpType::Src, OpType::Dest, "ORW3"),
        0xF1 => mi0(Data::NoData, "???"),
        0xF2 => mi3(Data::Half, OpType::Src, OpType::Src, OpType::Dest, "ORH3"),
        0xF3 => mi3(Data::Byte, OpType::Src, OpType::Src, OpType::Dest, "ORB3"),
        0xF4 => mi3(Data::Word, OpType::Src, OpType::Src, OpType::Dest, "XORW3"),
        0xF5 => mi0(Data::NoData, "???"),
        0xF6 => mi3(Data::Half, OpType::Src, OpType::Src, OpType::Dest, "XORH3"),
        0xF7 => mi3(Data::Byte, OpType::Src, OpType::Src, OpType::Dest, "XORB3"),
        0xF8 => mi3(Data::Word, OpType::Src, OpType::Src, OpType::Dest, "ANDW3"),
        0xF9 => mi0(Data::NoData, "???"),
        0xFA => mi3(Data::Half, OpType::Src, OpType::Src, OpType::Dest, "ANDH3"),
        0xFB => mi3(Data::Byte, OpType::Src, OpType::Src, OpType::Dest, "ANDB3"),
        0xFC => mi3(Data::Word, OpType::Src, OpType::Src, OpType::Dest, "SUBW3"),
        0xFD => mi0(Data::NoData, "???"),
        0xFE => mi3(Data::Half, OpType::Src, OpType::Src, OpType::Dest, "SUBH3"),
        _ => mi3(Data::Byte, OpType::Src, OpType::Src, OpType::Dest, "SUBB3"),
    }
}

fn mn0(opcode: usize, dtype: Data, name: &'static str) -> (m: Mnemonic)
    ensures
        m.opcode == opcode,
        m.dtype == dtype,
        m.name == name,
        m.ops@ == Seq::<OpType>::empty(),
{
    let ops: Vec<OpType> = Vec::new();
    Mnemonic { opcode, dtype, name, ops }
}

fn mn1(opcode: usize, dtype: Data, a: OpType, name: &'static str) -> (m: Mnemonic)
    ensures
        m.opcode == opcode,
        m.dtype == dtype,
        m.name == name,
        m.ops@ == Seq::<OpType>::empty().push(a),
{
    let mut ops: Vec<OpType> = Vec::new();
    ops.push(a);
    Mnemonic { opcode, dtype, name, ops }
}

fn mn2(opcode: usize, dtype: Data, a: OpType, b: OpType, name: &'static str) -> (m: Mnemonic)
    ensures
        m.opcode == opcode,
        m.dtype == dtype,
        m.name == name,
        m.ops@ == Seq::<OpType>::empty().push(a).push(b),
{
    let mut ops: Vec<OpType> = Vec::new();
    ops.push(a);
    ops.push(b);
    Mnemonic { opcode, dtype, name, ops }
}

fn mn3(opcode: usize, dtype: Data, a: OpType, b: OpType, c: OpType, name: &'static str) -> (m:
    Mnemonic)
    ensures
        m.opcode == opcode,
        m.dtype == dtype,
        m.name == name,
        m.ops@ == Seq::<OpType>::empty().push(a).push(b).push(c),
{
    let mut ops: Vec<OpType> = Vec::new();
    ops.push(a);
    ops.push(b);
    ops.push(c);
    Mnemonic { opcode, dtype, name, ops }
}

fn mn4(
    opcode: usize,
    dtype: Data,
    a: OpType,
    b: OpType,
    c: OpType,
    d: OpType,
    name: &'static str,
) -> (m: Mnemonic)
    ensures
        m.opcode == opcode,
        m.dtype == dtype,
        m.name == name,
        m.ops@ == Seq::<OpType>::empty().push(a).push(b).push(c).push(d),
{
    let mut ops: Vec<OpType> = Vec::new();
    ops.push(a);
    ops.push(b);
    ops.push(c);
    ops.push(d);
    Mnemonic { opcode, dtype, name, ops }
}

fn opcode_mnemonic_0(b: u8) -> (m: Mnemonic)
    requires
        b >> 4 == 0,
    ensures
        m.opcode == b as usize,
        m.dtype == op_info(b).dtype,
        m.ops@ == op_info(b).roles,
        m.name == op_info(b).name,
        m.ops@.len() <= 4,
{
    proof {
        assert(b >> 4 == 0 ==> 0 <= b < 16) by (bit_vector);
    }
    match b {
        0x00 => mn0(0x00, Data::NoData, "halt"),
        0x01 => mn0(0x01, Data::NoData, "???"),
        0x02 => mn2(0x02, Data::Word, OpType::Lit, OpType::Src, "SPOPRD"),
        0x03 => mn3(0x03, Data::Word, OpType::Lit, OpType::Src, OpType::Dest, "SPOPRD2"),
        0x04 => mn2(0x04, Data::Word, OpType::Src, OpType::Dest, "MOVAW"),
        0x05 => mn0(0x05, Data::NoData, "???"),
        0x06 => mn2(0x06, Data::Word, OpType::Lit, OpType::Src, "SPOPRT"),
        0x07 => mn3(0x07, Data::Word, OpType::Lit, OpType::Src, OpType::Dest, "SPOPT2"),
        0x08 => mn0(0x08, Data::NoData, "RET"),
        0x09 => mn0(0x09, Data::NoData, "???"),
        0x0A => mn0(0x0A, Data::NoData, "???"),
        0x0B => mn0(0x0B, Data::NoData, "???"),
        0x0C => mn2(0x0C, Data::Word, OpType::Src, OpType::Dest, "MOVTRW"),
        0x0D => mn0(0x0D, Data::NoData, "???"),
        0x0E => mn0(0x0E, Data::NoData, "???"),
        _ => mn0(0x0F, Data::NoData, "???"),
    }
}

fn opcode_mnemonic_1(b: u8) -> (m: Mnemonic)
    requires
        b >> 4 == 1,
    ensures
        m.opcode == b as usize,
        m.dtype == op_info(b).dtype,
        m.ops@ == op_info(b).roles,
        m.name == op_info(b).name,
        m.ops@.len() <= 4,
{
    proof {
        assert(b >> 4 == 1 ==> 16 <= b < 32) by (bit_vector);
    }
    match b {
        0x10 => mn1(0x10, Data::Word, OpType::Src, "SAVE"),
        0x11 => mn0(0x11, Data::NoData, "???"),
        0x12 => mn0(0x12, Data::NoData, "???"),
        0x13 => mn2(0x13, Data::Word, OpType::Lit, OpType::Dest, "SPOPWD"),
        0x14 => mn0(0x14, Data::Byte, "EXTOP"),
        0x15 => mn0(0x15, Data::NoData, "???"),
        0x16 => mn0(0x16, Data::NoData, "???"),
        0x17 => mn2(0x17, Data::Word, OpType::Lit, OpType::Dest, "SPOPWT"),
        0x18 => mn1(0x18, Data::NoData, OpType::Src, "RESTORE"),
        0x19 => mn0(0x19, Data::NoData, "???"),
        0x1A => mn0(0x1A, Data::NoData, "???"),
        0x1B => mn0(0x1B, Data::NoData, "???"),
        0x1C => mn1(0x1C, Data::Word, OpType::Dest, "SWAPWI"),
        0x1D => mn0(0x1D, Data::NoData, "???"),
        0x1E => mn1(0x1E, Data::Half, OpType::Dest, "SWAPHI"),
        _ => mn1(0x1F, Data::Byte, OpType::Dest, "SWAPBI"),
    }
}

fn opcode_mnemonic_2(b: u8) -> (m: Mnemonic)
    requires
        b >> 4 == 2,
    ensures
        m.opcode == b as usize,
        m.dtype == op_info(b).dtype,
        m.ops@ == op_info(b).roles,
        m.name == op_info(b).name,
        m.ops@.len() <= 4,
{
    proof {
        assert(b >> 4 == 2 ==> 32 <= b < 48) by (bit_vector);
    }
    match b {
        0x20 => mn1(0x20, Data::Word, OpType::Src, "POPW"),
        0x21 => mn0(0x21, Data::NoData, "???"),
        0x22 => mn2(0x22, Data::Word, OpType::Lit, OpType::Src, "SPOPRS"),
        0x23 => mn3(0x23, Data::Word, OpType::Lit, OpType::Src, OpType::Dest, "SPOPS2"),
        0x24 => mn1(0x24, Data::Word, OpType::Dest, "JMP"),
        0x25 => mn0(0x25, Data::NoData, "???"),
        0x26 => mn0(0x26, Data::NoData, "???"),
        0x27 => mn0(0x27, Data::NoData, "CFLUSH"),
        0x28 => mn1(0x28, Data::Word, OpType::Src, "TSTW"),
        0x29 => mn0(0x29, Data::NoData, "???"),
        0x2A => mn1(0x2A, Data::Half, OpType::Src, "TSTH"),
        0x2B => mn1(0x2B, Data::Byte, OpType::Src, "TSTB"),
        0x2C => mn2(0x2C, Data::Word, OpType::Src, OpType::Dest, "CALL"),
        0x2D => mn0(0x2D, Data::NoData, "???"),
        0x2E => mn0(0x2E, Data::NoData, "BPT"),
        _ => mn0(0x2F, Data::NoData, "WAIT"),
    }
}

fn opcode_mnemonic_3(b: u8) -> (m: Mnemonic)
    requires
        b >> 4 == 3,
    ensures
        m.opcode == b as usize,
        m.dtype == op_info(b).dtype,
        m.ops@ == op_info(b).roles,
        m.name == op_info(b).name,
        m.ops@.len() <= 4,
{
    proof {
        assert(b >> 4 == 3 ==> 48 <= b < 64) by (bit_vector);
    }
    match b {
        0x30 => mn0(0x30, Data::NoData, "???"),
        0x31 => mn0(0x31, Data::NoData, "???"),
        0x32 => mn1(0x32, Data::Word, OpType::Lit, "SPOP"),
        0x33 => mn2(0x33, Data::Word, OpType::Lit, OpType::Dest, "SPOPWS"),
        0x34 => mn1(0x34, Data::Word, OpType::Dest, "JSB"),
        0x35 => mn0(0x35, Data::NoData, "???"),
        0x36 => mn1(0x36, Data::Half, OpType::Lit, "BSBH"),
        0x37 => mn1(0x37, Data::Byte, OpType::Lit, "BSBB"),
        0x38 => mn2(0x38, Data::Word, OpType::Src, OpType::Src, "BITW"),
        0x39 => mn0(0x39, Data::NoData, "???"),
        0x3A => mn2(0x3A, Data::Half, OpType::Src, OpType::Src, "BITH"),
        0x3B => mn2(0x3B, Data::Byte, OpType::Src, OpType::Src, "BITB"),
        0x3C => mn2(0x3C, Data::Word, OpType::Src, OpType::Src, "CMPW"),
        0x3D => mn0(0x3D, Data::NoData, "???"),
        0x3E => mn2(0x3E, Data::Half, OpType::Src, OpType::Src, "CMPH"),
        _ => mn2(0x3F, Data::Byte, OpType::Src, OpType::Src, "CMPB"),
    }
}

fn opcode_mnemonic_4(b: u8) -> (m: Mnemonic)
    requires
        b >> 4 == 4,
    ensures
        m.opcode == b as usize,
        m.dtype == op_info(b).dtype,
        m.ops@ == op_info(b).roles,
        m.name == op_info(b).name,
        m.ops@.len() <= 4,
{
    proof {
        assert(b >> 4 == 4 ==> 64 <= b < 80) by (bit_vector);
    }
    match b {
        0x40 => mn0(0x40, Data::NoData, "RGEQ"),
        0x41 => mn0(0x41, Data::NoData, "???"),
        0x42 => mn1(0x42, Data::Half, OpType::Lit, "BGEH"),
        0x43 => mn1(0x43, Data::Byte, OpType::Lit, "BGEB"),
        0x44 => mn0(0x44, Data::NoData, "RGTR"),
        0x45 => mn0(0x45, Data::NoData, "???"),
        0x46 => mn1(0x46, Data::Half, OpType::Lit, "BGH"),
        0x47 => mn1(0x47, Data::Byte, OpType::Lit, "BGB"),
        0x48 => mn0(0x48, Data::NoData, "RLSS"),
        0x49 => mn0(0x49, Data::NoData, "???"),
        0x4A => mn1(0x4A, Data::Half, OpType::Lit, "BLH"),
        0x4B => mn1(0x4B, Data::Byte, OpType::Lit, "BLB"),
        0x4C => mn0(0x4C, Data::NoData, "RLEQ"),
        0x4D => mn0(0x4D, Data::NoData, "???"),
        0x4E => mn1(0x4E, Data::Half, OpType::Lit, "BLEH"),
        _ => mn1(0x4F, Data::Byte, OpType::Lit, "BLEB"),
    }
}

fn opcode_mnemonic_5(b: u8) -> (m: Mnemonic)
    requires
        b >> 4 == 5,
    ensures
        m.opcode == b as usize,
        m.dtype == op_info(b).dtype,
        m.ops@ == op_info(b).roles,
        m.name == op_info(b).name,
        m.ops@.len() <= 4,
{
    proof {
        assert(b >> 4 == 5 ==> 80 <= b < 96) by (bit_vector);
    }
    match b {
        0x50 => mn0(0x50, Data::NoData, "RGEQU"),
        0x51 => mn0(0x51, Data::NoData, "???"),
        0x52 => mn1(0x52, Data::Half, OpType::Lit, "BGEUH"),
        0x53 => mn1(0x53, Data::Byte, OpType::Lit, "BGEUB"),
        0x54 => mn0(0x54, Data::NoData, "RGTRU"),
        0x55 => mn0(0x55, Data::NoData, "???"),
        0x56 => mn1(0x56, Data::Half, OpType::Lit, "BGUH"),
        0x57 => mn1(0x57, Data::Byte, OpType::Lit, "BGUB"),
        0x58 => mn0(0x58, Data::NoData, "RLSSU"),
        0x59 => mn0(0x59, Data::NoData, "???"),
        0x5A => mn1(0x5A, Data::Half, OpType::Lit, "BLUH"),
        0x5B => mn1(0x5B, Data::Byte, OpType::Lit, "BLUB"),
        0x5C => mn0(0x5C, Data::NoData, "RLEQU"),
        0x5D => mn0(0x5D, Data::NoData, "???"),
        0x5E => mn1(0x5E, Data::Half, OpType::Lit, "BLEUH"),
        _ => mn1(0x5F, Data::Byte, OpType::Lit, "BLEUB"),
    }
}

fn opcode_mnemonic_6(b: u8) -> (m: Mnemonic)
    requires
        b >> 4 == 6,
    ensures
        m.opcode == b as usize,
        m.dtype == op_info(b).dtype,
        m.ops@ == op_info(b).roles,
        m.name == op_info(b).name,
        m.ops@.len() <= 4,
{
    proof {
        assert(b >> 4 == 6 ==> 96 <= b < 112) by (bit_vector);
    }
    match b {
        0x60 => mn0(0x60, Data::NoData, "RVC"),
        0x61 => mn0(0x61, Data::NoData, "???"),
        0x62 => mn1(0x62, Data::Half, OpType::Lit, "BVCH"),
        0x63 => mn1(0x63, Data::Byte, OpType::Lit, "BVCB"),
        0x64 => mn0(0x64, Data::NoData, "RNEQU"),
        0x65 => mn0(0x65, Data::NoData, "???"),
        0x66 => mn1(0x66, Data::Half, OpType::Lit, "BNEH"),
        0x67 => mn1(0x67, Data::Byte, OpType::Lit, "BNEB"),
        0x68 => mn0(0x68, Data::NoData, "RVS"),
        0x69 => mn0(0x69, Data::NoData, "???"),
        0x6A => mn1(0x6A, Data::Half, OpType::Lit, "BVSH"),
        0x6B => mn1(0x6B, Data::Byte, OpType::Lit, "BVSB"),
        0x6C => mn0(0x6C, Data::NoData, "REQLU"),
        0x6D => mn0(0x6D, Data::NoData, "???"),
        0x6E => mn1(0x6E, Data::Half, OpType::Lit, "BEH"),
        _ => mn1(0x6F, Data::Byte, OpType::Lit, "BEB"),
    }
}

fn opcode_mnemonic_7(b: u8) -> (m: Mnemonic)
    requires
        b >> 4 == 7,
    ensures
        m.opcode == b as usize,
        m.dtype == op_info(b).dtype,
        m.ops@ == op_info(b).roles,
        m.name == op_info(b).name,
        m.ops@.len() <= 4,
{
    proof {
        assert(b >> 4 == 7 ==> 112 <= b < 128) by (bit_vector);
    }
    match b {
        0x70 => mn0(0x70, Data::NoData, "NOP"),
        0x71 => mn0(0x71, Data::NoData, "???"),
        0x72 => mn0(0x72, Data::NoData, "NOP3"),
        0x73 => mn0(0x73, Data::NoData, "NOP2"),
        0x74 => mn0(0x74, Data::NoData, "RNEQ"),
        0x75 => mn0(0x75, Data::NoData, "???"),
        0x76 => mn1(0x76, Data::Half, OpType::Lit, "BNEH"),
        0x77 => mn1(0x77, Data::Byte, OpType::Lit, "BNEB"),
        0x78 => mn0(0x78, Data::NoData, "RSB"),
        0x79 => mn0(0x79, Data::NoData, "???"),
        0x7A => mn1(0x7A, Data::Half, OpType::Lit, "BRH"),
        0x7B => mn1(0x7B, Data::Byte, OpType::Lit, "BRB"),
        0x7C => mn0(0x7C, Data::NoData, "REQL"),
        0x7D => mn0(0x7D, Data::NoData, "???"),
        0x7E => mn1(0x7E, Data::Half, OpType::Lit, "BEH"),
        _ => mn1(0x7F, Data::Byte, OpType::Lit, "BEB"),
    }
}

fn opcode_mnemonic_8(b: u8) -> (m: Mnemonic)
    requires
        b >> 4 == 8,
    ensures
        m.opcode == b as usize,
        m.dtype == op_info(b).dtype,
        m.ops@ == op_info(b).roles,
        m.name == op_info(b).name,
        m.ops@.len() <= 4,
{
    proof {
        assert(b >> 4 == 8 ==> 128 <= b < 144) by (bit_vector);
    }
    match b {
        0x80 => mn1(0x80, Data::Word, OpType::Dest, "CLRW"),
        0x81 => mn0(0x81, Data::NoData, "???"),
        0x82 => mn1(0x82, Data::Half, OpType::Dest, "CLRH"),
        0x83 => mn1(0x83, Data::Byte, OpType::Dest, "CLRB"),
        0x84 => mn2(0x84, Data::Word, OpType::Src, OpType::Dest, "MOVW"),
        0x85 => mn0(0x85, Data::NoData, "???"),
        0x86 => mn2(0x86, Data::Half, OpType::Src, OpType::Dest, "MOVH"),
        0x87 => mn2(0x87, Data::Byte, OpType::Src, OpType::Dest, "MOVB"),
        0x88 => mn2(0x88, Data::Word, OpType::Src, OpType::Dest, "MCOMW"),
        0x89 => mn0(0x89, Data::NoData, "???"),
        0x8A => mn2(0x8A, Data::Half, OpType::Src, OpType::Dest, "MCOMH"),
        0x8B => mn2(0x8B, Data::Byte, OpType::Src, OpType::Dest, "MCOMB"),
        0x8C => mn2(0x8C, Data::Word, OpType::Src, OpType::Dest, "MNEGW"),
        0x8D => mn0(0x8D, Data::NoData, "???"),
        0x8E => mn2(0x8E, Data::Half, OpType::Src, OpType::Dest, "MNEGH"),
        _ => mn2(0x8F, Data::Byte, OpType::Src, OpType::Dest, "MNEGB"),
    }
}

fn opcode_mnemonic_9(b: u8) -> (m: Mnemonic)
    requires
        b >> 4 == 9,
    ensures
        m.opcode == b as usize,
        m.dtype == op_info(b).dtype,
        m.ops@ == op_info(b).roles,
        m.name == op_info(b).name,
        m.ops@.len() <= 4,
{
    proof {
        assert(b >> 4 == 9 ==> 144 <= b < 160) by (bit_vector);
    }
    match b {
        0x90 => mn1(0x90, Data::Word, OpType::Dest, "INCW"),
        0x91 => mn0(0x91, Data::NoData, "???"),
        0x92 => mn1(0x92, Data::Half, OpType::Dest, "INCH"),
        0x93 => mn1(0x93, Data::Byte, OpType::Dest, "INCB"),
        0x94 => mn1(0x94, Data::Word, OpType::Dest, "DECW"),
        0x95 => mn0(0x95, Data::NoData, "???"),
        0x96 => mn1(0x96, Data::Half, OpType::Dest, "DECH"),
        0x97 => mn1(0x97, Data::Byte, OpType::Dest, "DECB"),
        0x98 => mn0(0x98, Data::NoData, "???"),
        0x99 => mn0(0x99, Data::NoData, "???"),
        0x9A => mn0(0x9A, Data::NoData, "???"),
        0x9B => mn0(0x9B, Data::NoData, "???"),
        0x9C => mn2(0x9C, Data::Word, OpType::Src, OpType::Dest, "ADDW2"),
        0x9D => mn0(0x9D, Data::NoData, "???"),
        0x9E => mn2(0x9E, Data::Half, OpType::Src, OpType::Dest, "ADDH2"),
        _ => mn2(0x9F, Data::Byte, OpType::Src, OpType::Dest, "ADDB2"),
    }
}

fn opcode_mnemonic_a(b: u8) -> (m: Mnemonic)
    requires
        b >> 4 == 10,
    ensures
        m.opcode == b as usize,
        m.dtype == op_info(b).dtype,
        m.ops@ == op_info(b).roles,
        m.name == op_info(b).name,
        m.ops@.len() <= 4,
{
    proof {
        assert(b >> 4 == 10 ==> 160 <= b < 176) by (bit_vector);
    }
    match b {
        0xA0 => mn1(0xA0, Data::Word, OpType::Src, "PUSHW"),
        0xA1 => mn0(0xA1, Data::NoData, "???"),
        0xA2 => mn0(0xA2, Data::NoData, "???"),
        0xA3 => mn0(0xA3, Data::NoData, "???"),
        0xA4 => mn2(0xA4, Data::Word, OpType::Src, OpType::Dest, "MODW2"),
        0xA5 => mn0(0xA5, Data::NoData, "???"),
        0xA6 => mn2(0xA6, Data::Half, OpType::Src, OpType::Dest, "MODH2"),
        0xA7 => mn2(0xA7, Data::Byte, OpType::Src, OpType::Dest, "MODB2"),
        0xA8 => mn2(0xA8, Data::Word, OpType::Src, OpType::Dest, "MULW2"),
        0xA9 => mn0(0xA9, Data::NoData, "???"),
        0xAA => mn2(0xAA, Data::Half, OpType::Src, OpType::Dest, "MULH2"),
        0xAB => mn2(0xAB, Data::Byte, OpType::Src, OpType::Dest, "MULB2"),
        0xAC => mn2(0xAC, Data::Word, OpType::Src, OpType::Dest, "DIVW2"),
        0xAD => mn0(0xAD, Data::NoData, "???"),
        0xAE => mn2(0xAE, Data::Half, OpType::Src, OpType::Dest, "DIVH2"),
        _ => mn2(0xAF, Data::Byte, OpType::Src, OpType::Dest, "DIVB2"),
    }
}

fn opcode_mnemonic_b(b: u8) -> (m: Mnemonic)
    requires
        b >> 4 == 11,
    ensures
        m.opcode == b as usize,
        m.dtype == op_info(b).dtype,
        m.ops@ == op_info(b).roles,
        m.name == op_info(b).name,
        m.ops@.len() <= 4,
{
    proof {
        assert(b >> 4 == 11 ==> 176 <= b < 192) by (bit_vector);
    }
    match b {
        0xB0 => mn2(0xB0, Data::Word, OpType::Src, OpType::Dest, "ORW2"),
        0xB1 => mn0(0xB1, Data::NoData, "???"),
        0xB2 => mn2(0xB2, Data::Half, OpType::Src, OpType::Dest, "ORH2"),
        0xB3 => mn2(0xB3, Data::Byte, OpType::Src, OpType::Dest, "ORB2"),
        0xB4 => mn2(0xB4, Data::Word, OpType::Src, OpType::Dest, "XORW2"),
        0xB5 => mn0(0xB5, Data::NoData, "???"),
        0xB6 => mn2(0xB6, Data::Half, OpType::Src, OpType::Dest, "XORH2"),
        0xB7 => mn2(0xB7, Data::Byte, OpType::Src, OpType::Dest, "XORB2"),
        0xB8 => mn2(0xB8, Data::Word, OpType::Src, OpType::Dest, "ANDW2"),
        0xB9 => mn0(0xB9, Data::NoData, "???"),
        0xBA => mn2(0xBA, Data::Half, OpType::Src, OpType::Dest, "ANDH2"),
        0xBB => mn2(0xBB, Data::Byte, OpType::Src, OpType::Dest, "ANDB2"),
        0xBC => mn2(0xBC, Data::Word, OpType::Src, OpType::Dest, "SUBW2"),
        0xBD => mn0(0xBD, Data::NoData, "???"),
        0xBE => mn2(0xBE, Data::Half, OpType::Src, OpType::Dest, "SUBH2"),
        _ => mn2(0xBF, Data::Byte, OpType::Src, OpType::Dest, "SUBB2"),
    }
}

fn opcode_mnemonic_c(b: u8) -> (m: Mnemonic)
    requires
        b >> 4 == 12,
    ensures
        m.opcode == b as usize,
        m.dtype == op_info(b).dtype,
        m.ops@ == op_info(b).roles,
        m.name == op_info(b).name,
        m.ops@.len() <= 4,
{
    proof {
        assert(b >> 4 == 12 ==> 192 <= b < 208) by (bit_vector);
    }
    match b {
        0xC0 => mn3(0xC0, Data::Word, OpType::Src, OpType::Src, OpType::Dest, "ALSW3"),
        0xC1 => mn0(0xC1, Data::NoData, "???"),
        0xC2 => mn0(0xC2, Data::NoData, "???"),
        0xC3 => mn0(0xC3, Data::NoData, "???"),
        0xC4 => mn3(0xC4, Data::Word, OpType::Src, OpType::Src, OpType::Dest, "ARSW3"),
        0xC5 => mn0(0xC5, Data::NoData, "???"),
        0xC6 => mn3(0xC6, Data::Half, OpType::Src, OpType::Src, OpType::Dest, "ARSH3"),
        0xC7 => mn3(0xC7, Data::Byte, OpType::Src, OpType::Src, OpType::Dest, "ARSB3"),
        0xC8 => mn4(0xC8, Data::Word, OpType::Src, OpType::Src, OpType::Src, OpType::Dest, "INSFW"),
        0xC9 => mn0(0xC9, Data::NoData, "???"),
        0xCA => mn4(0xCA, Data::Half, OpType::Src, OpType::Src, OpType::Src, OpType::Dest, "INSFH"),
        0xCB => mn4(0xCB, Data::Byte, OpType::Src, OpType::Src, OpType::Src, OpType::Dest, "INSFB"),
        0xCC => mn4(0xCC, Data::Word, OpType::Src, OpType::Src, OpType::Src, OpType::Dest, "EXTFW"),
        0xCD => mn0(0xCD, Data::NoData, "???"),
        0xCE => mn4(0xCE, Data::Half, OpType::Src, OpType::Src, OpType::Src, OpType::Dest, "EXTFH"),
        _ => mn4(0xCF, Data::Byte, OpType::Src, OpType::Src, OpType::Src, OpType::Dest, "EXTFB"),
    }
}

fn opcode_mnemonic_d(b: u8) -> (m: Mnemonic)
    requires
        b >> 4 == 13,
    ensures
        m.opcode == b as usize,
        m.dtype == op_info(b).dtype,
        m.ops@ == op_info(b).roles,
        m.name == op_info(b).name,
        m.ops@.len() <= 4,
{
    proof {
        assert(b >> 4 == 13 ==> 208 <= b < 224) by (bit_vector);
    }
    match b {
        0xD0 => mn3(0xD0, Data::Word, OpType::Src, OpType::Src, OpType::Dest, "LLSW3"),
        0xD1 => mn0(0xD1, Data::NoData, "???"),
        0xD2 => mn3(0xD2, Data::Half, OpType::Src, OpType::Src, OpType::Dest, "LLSH3"),
        0xD3 => mn3(0xD3, Data::Byte, OpType::Src, OpType::Src, OpType::Dest, "LLSB3"),
        0xD4 => mn3(0xD4, Data::Word, OpType::Src, OpType::Src, OpType::Dest, "LRSW3"),
        0xD5 => mn0(0xD5, Data::NoData, "???"),
        0xD6 => mn0(0xD6, Data::NoData, "???"),
        0xD7 => mn0(0xD7, Data::NoData, "???"),
        0xD8 => mn3(0xD8, Data::Word, OpType::Src, OpType::Src, OpType::Dest, "ROTW"),
        0xD9 => mn0(0xD9, Data::NoData, "???"),
        0xDA => mn0(0xDA, Data::NoData, "???"),
        0xDB => mn0(0xDB, Data::NoData, "???"),
        0xDC => mn3(0xDC, Data::Word, OpType::Src, OpType::Src, OpType::Dest, "ADDW3"),
        0xDD => mn0(0xDD, Data::NoData, "???"),
        0xDE => mn3(0xDE, Data::Half, OpType::Src, OpType::Src, OpType::Dest, "ADDH3"),
        _ => mn3(0xDF, Data::Byte, OpType::Src, OpType::Src, OpType::Dest, "ADDB3"),
    }
}

fn opcode_mnemonic_e(b: u8) -> (m: Mnemonic)
    requires
        b >> 4 == 14,
    ensures
        m.opcode == b as usize,
        m.dtype == op_info(b).dtype,
        m.ops@ == op_info(b).roles,
        m.name == op_info(b).name,
        m.ops@.len() <= 4,
{
    proof {
        assert(b >> 4 == 14 ==> 224 <= b < 240) by (bit_vector);
    }
    match b {
        0xE0 => mn1(0xE0, Data::Word, OpType::Src, "PUSHAW"),
        0xE1 => mn0(0xE1, Data::NoData, "???"),
        0xE2 => mn0(0xE2, Data::NoData, "???"),
        0xE3 => mn0(0xE3, Data::NoData, "???"),
        0xE4 => mn3(0xE4, Data::Word, OpType::Src, OpType::Src, OpType::Dest, "MODW3"),
        0xE5 => mn0(0xE5, Data::NoData, "???"),
        0xE6 => mn3(0xE6, Data::Half, OpType::Src, OpType::Src, OpType::Dest, "MODH3"),
        0xE7 => mn3(0xE7, Data::Byte, OpType::Src, OpType::Src, OpType::Dest, "MODB3"),
        0xE8 => mn3(0xE8, Data::Word, OpType::Src, OpType::Src, OpType::Dest, "MULW3"),
        0xE9 => mn0(0xE9, Data::NoData, "???"),
        0xEA => mn3(0xEA, Data::Half, OpType::Src, OpType::Src, OpType::Dest, "MULH3"),
        0xEB => mn3(0xEB, Data::Byte, OpType::Src, OpType::Src, OpType::Dest, "MULB3"),
        0xEC => mn3(0xEC, Data::Word, OpType::Src, OpType::Src, OpType::Dest, "DIVW3"),
        0xED => mn0(0xED, Data::NoData, "???"),
        0xEE => mn3(0xEE, Data::Half, OpType::Src, OpType::Src, OpType::Dest, "DIVH3"),
        _ => mn3(0xEF, Data::Byte, OpType::Src, OpType::Src, OpType::Dest, "DIVB3"),
    }
}

fn opcode_mnemonic_f(b: u8) -> (m: Mnemonic)
    requires
        b >> 4 == 15,
    ensures
        m.opcode == b as usize,
        m.dtype == op_info(b).dtype,
        m.ops@ == op_info(b).roles,
        m.name == op_info(b).name,
        m.ops@.len() <= 4,
{
    proof {
        assert(b >> 4 == 15 ==> 240 <= b < 256) by (bit_vector);
    }
    match b {
        0xF0 => mn3(0xF0, Data::Word, OpType::Src, OpType::Src, OpType::Dest, "ORW3"),
        0xF1 => mn0(0xF1, Data::NoData, "???"),
        0xF2 => mn3(0xF2, Data::Half, OpType::Src, OpType::Src, OpType::Dest, "ORH3"),
        0xF3 => mn3(0xF3, Data::Byte, OpType::Src, OpType::Src, OpType::Dest, "ORB3"),
        0xF4 => mn3(0xF4, Data::Word, OpType::Src, OpType::Src, OpType::Dest, "XORW3"),
        0xF5 => mn0(0xF5, Data::NoData, "???"),
        0xF6 => mn3(0xF6, Data::Half, OpType::Src, OpType::Src, OpType::Dest, "XORH3"),
        0xF7 => mn3(0xF7, Data::Byte, OpType::Src, OpType::Src, OpType::Dest, "XORB3"),
        0xF8 => mn3(0xF8, Data::Word, OpType::Src, OpType::Src, OpType::Dest, "ANDW3"),
        0xF9 => mn0(0xF9, Data::NoData, "???"),
        0xFA => mn3(0xFA, Data::Half, OpType::Src, OpType::Src, OpType::Dest, "ANDH3"),
        0xFB => mn3(0xFB, Data::Byte, OpType::Src, OpType::Src, OpType::Dest, "ANDB3"),
        0xFC => mn3(0xFC, Data::Word, OpType::Src, OpType::Src, OpType::Dest, "SUBW3"),
        0xFD => mn0(0xFD, Data::NoData, "???"),
        0xFE => mn3(0xFE, Data::Half, OpType::Src, OpType::Src, OpType::Dest, "SUBH3"),
        _ => mn3(0xFF, Data::Byte, OpType::Src, OpType::Src, OpType::Dest, "SUBB3"),
    }
}

/// Looks up a primary opcode byte in the table.
pub fn opcode_mnemonic(b: u8) -> (m: Mnemonic)
    ensures
        m.opcode == b as usize,
        m.dtype == op_info(b).dtype,
        m.ops@ == op_info(b).roles,
        m.name == op_info(b).name,
        m.ops@.len() <= 4,
{
    let hi = b >> 4;
    proof {
        assert(b >> 4 < 16) by (bit_vector);
    }

    match hi {
        0 => opcode_mnemonic_0(b),
        1 => opcode_mnemonic_1(b),
        2 => opcode_mnemonic_2(b),
        3 => opcode_mnemonic_3(b),
        4 => opcode_mnemonic_4(b),
        5 => opcode_mnemonic_5(b),
        6 => opcode_mnemonic_6(b),
        7 => opcode_mnemonic_7(b),
        8 => opcode_mnemonic_8(b),
        9 => opcode_mnemonic_9(b),
        10 => opcode_mnemonic_a(b),
        11 => opcode_mnemonic_b(b),
        12 => opcode_mnemonic_c(b),
        13 => opcode_mnemonic_d(b),
        14 => opcode_mnemonic_e(b),
        _ => {
            proof {
                assert(b >> 4 < 16 && !(b >> 4 < 15) ==> b >> 4 == 15) by (bit_vector);
            }
            opcode_mnemonic_f(b)
        },
    }
}

/// The eleven opcodes reached through the 0x30 prefix byte.
pub open spec fn is_halfword_opcode(b: u8) -> bool {
    b == 0x09 || b == 0x0d || b == 0x13 || b == 0x19 || b == 0x1f || b == 0x2f || b == 0x3f || b == 0x45 || b == 0x61 || b == 0xac || b == 0xc8
}

/// Display name of a half-word opcode; "???" outside the table.
pub open spec fn halfword_name(b: u8) -> &'static str {
    if b == 0x09 {
        "MVERNO"
    } else if b == 0x0d {
        "ENBVJMP"
    } else if b == 0x13 {
        "DISVJMP"
    } else if b == 0x19 {
        "MOVBLW"
    } else if b == 0x1f {
        "STREND"
    } else if b == 0x2f {
        "INTACK"
    } else if b == 0x3f {
        "STRCPY"
    } else if b == 0x45 {
        "RETG"
    } else if b == 0x61 {
        "GATE"
    } else if b == 0xac {
        "CALLPS"
    } else if b == 0xc8 {
        "RETPS"
    } else {
        "???"
    }
}

/// Looks up the second byte of a 0x30-prefixed instruction: the half-word
/// table holds exactly eleven entries, all of width `NoData` and with no
/// operands; any other byte has no entry.
pub fn halfword_mnemonic(b: u8) -> (r: Option<Mnemonic>)
    ensures
        match r {
            Some(m) => is_halfword_opcode(b) && m.opcode == b as usize && m.dtype == Data::NoData
                && m.ops@ == Seq::<OpType>::empty() && m.name == halfword_name(b),
            None => !is_halfword_opcode(b),
        },
{
    if b == 0x09 {
        Some(mn0(b as usize, Data::NoData, "MVERNO"))
    } else if b == 0x0d {
        Some(mn0(b as usize, Data::NoData, "ENBVJMP"))
    } else if b == 0x13 {
        Some(mn0(b as usize, Data::NoData, "DISVJMP"))
    } else if b == 0x19 {
        Some(mn0(b as usize, Data::NoData, "MOVBLW"))
    } else if b == 0x1f {
        Some(mn0(b as usize, Data::NoData, "STREND"))
    } else if b == 0x2f {
        Some(mn0(b as usize, Data::NoData, "INTACK"))
    } else if b == 0x3f {
        Some(mn0(b as usize, Data::NoData, "STRCPY"))
    } else if b == 0x45 {
        Some(mn0(b as usize, Data::NoData, "RETG"))
    } else if b == 0x61 {
        Some(mn0(b as usize, Data::NoData, "GATE"))
    } else if b == 0xac {
        Some(mn0(b as usize, Data::NoData, "CALLPS"))
    } else if b == 0xc8 {
        Some(mn0(b as usize, Data::NoData, "RETPS"))
    } else {
        None
    }
}

} // verus!
