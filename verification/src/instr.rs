use vstd::prelude::*;

verus! {

/// Addressing mode of a decoded operand, as selected by the high nibble of
/// its descriptor byte.
#[derive(Clone, Copy, Debug, Eq, PartialEq)]
pub enum AddrMode {
    NoMode,
    Absolute,
    AbsoluteDeferred,
    ByteDisplacement,
    ByteDisplacementDeferred,
    HalfwordDisplacement,
    HalfwordDisplacementDeferred,
    WordDisplacement,
    WordDisplacementDeferred,
    APShortOffset,
    FPShortOffset,
    ByteImmediate,
    HalfwordImmediate,
    WordImmediate,
    PositiveLiteral,
    NegativeLiteral,
    Register,
    RegisterDeferred,
    Expanded,
}

/// Role an operand plays for its mnemonic.
#[derive(Copy, Clone, Debug, Eq, PartialEq)]
pub enum OpType {
    Lit,
    Src,
    Dest,
}

/// Data width of an access, which also fixes the extension policy: `Byte`
/// and `UHalf` zero-extend, `SByte` and `Half` sign-extend, the word widths
/// pass 32 bits through.
#[derive(Copy, Clone, Debug, Eq, PartialEq)]
pub enum Data {
    NoData,
    Byte,
    Half,
    Word,
    SByte,
    UHalf,
    UWord,
}

/// Execution modes named by the CM field of the processor status word.
#[derive(Copy, Clone, Debug, Eq, PartialEq)]
pub enum CpuMode {
    User,
    Supervisor,
    Executive,
    Kernel,
}

/// A fully decoded operand. `size` is exactly the number of instruction
/// bytes the operand consumed, including an expanded-type prefix byte when
/// one was present.
#[derive(Copy, Clone, Debug, Eq, PartialEq)]
pub struct Operand {
    pub size: u8,
    pub mode: AddrMode,
    pub data_type: Data,
    pub expanded_type: Option<Data>,
    pub register: Option<usize>,
    pub embedded: u32,
}

impl Operand {
    /// A register index, when present, names one of the sixteen registers.
    pub open spec fn wf(self) -> bool {
        match self.register {
            Some(r) => r < 16,
            None => true,
        }
    }

    /// The width that governs reads and writes: the expanded type when an
    /// expansion prefix preceded the operand, else the intrinsic type.
    pub open spec fn effective_type(self) -> Data {
        match self.expanded_type {
            Some(t) => t,
            None => self.data_type,
        }
    }

    pub fn new(
        size: u8,
        mode: AddrMode,
        data_type: Data,
        expanded_type: Option<Data>,
        register: Option<usize>,
        embedded: u32,
    ) -> (op: Operand)
        ensures
            op == (Operand { size, mode, data_type, expanded_type, register, embedded }),
    {
        Operand { size, mode, data_type, expanded_type, register, embedded }
    }

    /// The effective data width (expanded if present, else intrinsic).
    pub fn data_type(&self) -> (t: Data)
        ensures
            t == self.effective_type(),
    {
        match self.expanded_type {
            Some(t) => t,
            None => self.data_type,
        }
    }
}

/// Static description of one opcode: its byte, the data width it works at,
/// its display name, and the roles of its operands in order.
#[derive(Clone, Debug, Eq, PartialEq)]
pub struct Mnemonic {
    pub opcode: usize,
    pub dtype: Data,
    pub name: &'static str,
    pub ops: Vec<OpType>,
}

/// One instruction as produced by the decoder: its mnemonic, its total
/// length in bytes including the opcode byte or bytes, and its operands.
#[derive(Debug, Eq, PartialEq)]
pub struct DecodedInstruction {
    pub mnemonic: Mnemonic,
    pub bytes: u8,
    pub operands: Vec<Operand>,
}

/// Index of the frame pointer in the register file.
pub const R_FP: usize = 9;

/// Index of the argument pointer.
pub const R_AP: usize = 10;

/// Index of the processor status word.
pub const R_PSW: usize = 11;

/// Index of the stack pointer.
pub const R_SP: usize = 12;

/// Index of the process control block pointer.
pub const R_PCBP: usize = 13;

/// Index of the interrupt stack pointer.
pub const R_ISP: usize = 14;

/// Index of the program counter.
pub const R_PC: usize = 15;

/// A byte sign-extended to 32 bits.
pub open spec fn spec_sign_extend_byte(data: u8) -> u32 {
    if data < 0x80 {
        data as u32
    } else {
        (data as u32) | 0xffff_ff00
    }
}

/// A byte zero-extended to 32 bits.
pub open spec fn spec_zero_extend_byte(data: u8) -> u32 {
    data as u32
}

/// A halfword sign-extended to 32 bits.
pub open spec fn spec_sign_extend_halfword(data: u16) -> u32 {
    if data < 0x8000 {
        data as u32
    } else {
        (data as u32) | 0xffff_0000
    }
}

/// A halfword zero-extended to 32 bits.
pub open spec fn spec_zero_extend_halfword(data: u16) -> u32 {
    data as u32
}

pub fn sign_extend_byte(data: u8) -> (r: u32)
    ensures
        r == spec_sign_extend_byte(data),
{
    if data < 0x80 {
        data as u32
    } else {
        (data as u32) | 0xffff_ff00
    }
}

pub fn zero_extend_byte(data: u8) -> (r: u32)
    ensures
        r == spec_zero_extend_byte(data),
{
    data as u32
}

pub fn sign_extend_halfword(data: u16) -> (r: u32)
    ensures
        r == spec_sign_extend_halfword(data),
{
    if data < 0x8000 {
        data as u32
    } else {
        (data as u32) | 0xffff_0000
    }
}

pub fn zero_extend_halfword(data: u16) -> (r: u32)
    ensures
        r == spec_zero_extend_halfword(data),
{
    data as u32
}

/// The low byte of a word.
pub open spec fn low_byte(v: u32) -> u8 {
    (v & 0xff) as u8
}

/// The low halfword of a word.
pub open spec fn low_half(v: u32) -> u16 {
    (v & 0xffff) as u16
}

/// Extracts the low byte of a word.
pub fn low_byte_x(v: u32) -> (r: u8)
    ensures
        r == low_byte(v),
{
    proof {
        assert((v & 0xff) < 0x100) by (bit_vector);
    }
    (v & 0xff) as u8
}

/// Extracts the low halfword of a word.
pub fn low_half_x(v: u32) -> (r: u16)
    ensures
        r == low_half(v),
{
    proof {
        assert((v & 0xffff) < 0x1_0000) by (bit_vector);
    }
    (v & 0xffff) as u16
}

} // verus!
