use vstd::prelude::*;

use crate::bus::{
    AccessCode, Bus, spec_read_byte, spec_read_half, spec_read_word, spec_write_byte,
    spec_write_half, spec_write_word,
};
use crate::decode::{
    SpecInstr, illegal, lemma_descriptor_props, lemma_literal_props, lemma_operands_props,
    lemma_sum_sizes_push, spec_decode_descriptor, spec_decode_instruction, spec_decode_literal,
    spec_decode_operand, spec_decode_operands, sum_sizes,
};
use crate::err::{BusError, CpuError, CpuException};
use crate::instr::{
    AddrMode, Data, DecodedInstruction, Mnemonic, OpType, Operand, R_AP, R_FP, R_PC, R_PCBP,
    R_PSW, R_SP, low_byte, low_byte_x, low_half, low_half_x, sign_extend_byte,
    sign_extend_halfword, spec_sign_extend_byte, spec_sign_extend_halfword,
};
use crate::optable::{halfword_mnemonic, is_halfword_opcode, op_info, opcode_mnemonic};

verus! {

/// Exception-type field of the processor status word.
pub const F_ET: u32 = 0x00000003;

/// Trace-mask bit.
pub const F_TM: u32 = 0x00000004;

/// Internal state code, four bits.
pub const F_ISC: u32 = 0x00000078;

/// Initial-context flag, consumed and cleared by reset.
pub const F_I: u32 = 0x00000080;

/// Previous execution mode, two bits.
pub const F_PM: u32 = 0x00000600;

/// Current execution mode, two bits.
pub const F_CM: u32 = 0x00001800;

/// Interrupt priority level.
pub const F_IPL: u32 = 0x0001e000;

/// Carry condition code.
pub const F_C: u32 = 0x00040000;

/// Overflow condition code.
pub const F_V: u32 = 0x00080000;

/// Zero condition code.
pub const F_Z: u32 = 0x00100000;

/// Negative condition code.
pub const F_N: u32 = 0x00200000;

/// The processor: a file of sixteen 32-bit registers. Indices 9 through 15
/// are the architectural aliases FP, AP, PSW, SP, PCBP, ISP and PC.
pub struct Cpu {
    r: [u32; 16],
}

/// The PSW with `val` stored in the four-bit internal state code field;
/// values of 16 and above wrap silently.
pub open spec fn spec_set_isc(psw: u32, val: u32) -> u32 {
    (psw & !F_ISC) | ((val & 0xf) << 3)
}

/// The PSW after a privilege-level change: the old current mode moves into
/// the previous-mode field and `val` (two bits) becomes the current mode.
pub open spec fn spec_set_priv_level(psw: u32, val: u32) -> u32 {
    let old_level = (psw & F_CM) >> 11;
    ((((psw & !F_PM) | ((old_level & 3) << 9)) & !F_CM) | ((val & 3) << 11))
}

/// Whether the PSW bit (or any bit of the field) selected by `mask` is set.
pub open spec fn psw_flag(psw: u32, mask: u32) -> bool {
    psw & mask != 0
}

impl Cpu {
    /// The register file as a sequence of sixteen words.
    pub closed spec fn regs(self) -> Seq<u32> {
        self.r@
    }

    /// A fresh processor with every register zero.
    pub fn new() -> (cpu: Cpu)
        ensures
            cpu.regs().len() == 16,
            forall|i: int| 0 <= i < 16 ==> cpu.regs()[i] == 0u32,
    {
        Cpu { r: [0u32; 16] }
    }

    /// Reads register `reg`.
    pub fn get_register(&self, reg: u8) -> (v: u32)
        requires
            reg < 16,
        ensures
            v == self.regs()[reg as int],
    {
        self.r[reg as usize]
    }

    /// Stores `val` in register `reg`.
    pub fn set_register(&mut self, reg: u8, val: u32)
        requires
            reg < 16,
        ensures
            final(self).regs() == old(self).regs().update(reg as int, val),
    {
        self.r[reg as usize] = val;
    }

    /// The program counter.
    pub fn get_pc(&self) -> (v: u32)
        ensures
            v == self.regs()[R_PC as int],
    {
        self.r[R_PC]
    }

    /// The processor status word.
    pub fn get_psw(&self) -> (v: u32)
        ensures
            v == self.regs()[R_PSW as int],
    {
        self.r[R_PSW]
    }

    /// Sets the program counter.
    pub fn set_pc(&mut self, val: u32)
        ensures
            final(self).regs() == old(self).regs().update(R_PC as int, val),
    {
        self.r[R_PC] = val;
    }

    /// Sets or clears the carry flag, leaving every other PSW bit and every
    /// other register unchanged.
    pub fn set_c_flag(&mut self, set: bool)
        ensures
            final(self).regs() == old(self).regs().update(
                R_PSW as int,
                if set {
                    old(self).regs()[R_PSW as int] | F_C
                } else {
                    old(self).regs()[R_PSW as int] & !F_C
                },
            ),
    {
        if set {
            self.r[R_PSW] = self.r[R_PSW] | F_C;
        } else {
            self.r[R_PSW] = self.r[R_PSW] & !F_C;
        }
    }

    /// Sets or clears the overflow flag, leaving every other PSW bit and
    /// every other register unchanged.
    pub fn set_v_flag(&mut self, set: bool)
        ensures
            final(self).regs() == old(self).regs().update(
                R_PSW as int,
                if set {
                    old(self).regs()[R_PSW as int] | F_V
                } else {
                    old(self).regs()[R_PSW as int] & !F_V
                },
            ),
    {
        if set {
            self.r[R_PSW] = self.r[R_PSW] | F_V;
        } else {
            self.r[R_PSW] = self.r[R_PSW] & !F_V;
        }
    }

    /// Sets or clears the zero flag, leaving every other PSW bit and every
    /// other register unchanged.
    pub fn set_z_flag(&mut self, set: bool)
        ensures
            final(self).regs() == old(self).regs().update(
                R_PSW as int,
                if set {
                    old(self).regs()[R_PSW as int] | F_Z
                } else {
                    old(self).regs()[R_PSW as int] & !F_Z
                },
            ),
    {
        if set {
            self.r[R_PSW] = self.r[R_PSW] | F_Z;
        } else {
            self.r[R_PSW] = self.r[R_PSW] & !F_Z;
        }
    }

    /// Sets or clears the negative flag, leaving every other PSW bit and
    /// every other register unchanged.
    pub fn set_n_flag(&mut self, set: bool)
        ensures
            final(self).regs() == old(self).regs().update(
                R_PSW as int,
                if set {
                    old(self).regs()[R_PSW as int] | F_N
                } else {
                    old(self).regs()[R_PSW as int] & !F_N
                },
            ),
    {
        if set {
            self.r[R_PSW] = self.r[R_PSW] | F_N;
        } else {
            self.r[R_PSW] = self.r[R_PSW] & !F_N;
        }
    }

    /// Writes the four-bit internal state code; values of 16 and above wrap
    /// silently because only the low four bits are kept.
    pub fn set_isc(&mut self, val: u32)
        ensures
            final(self).regs() == old(self).regs().update(
                R_PSW as int,
                spec_set_isc(old(self).regs()[R_PSW as int], val),
            ),
    {
        self.r[R_PSW] = self.r[R_PSW] & !F_ISC;
        self.r[R_PSW] = self.r[R_PSW] | ((val & 0xf) << 3);
        proof {
            assert(old(self).regs().update(R_PSW as int, spec_set_isc(old(self).regs()[R_PSW as int], val))
                =~= final(self).regs());
        }
    }

    /// Changes the current execution mode: the old current mode is copied
    /// into the previous-mode field, then `val` (masked to two bits)
    /// becomes the current mode.
    pub fn set_priv_level(&mut self, val: u32)
        ensures
            final(self).regs() == old(self).regs().update(
                R_PSW as int,
                spec_set_priv_level(old(self).regs()[R_PSW as int], val),
            ),
    {
        let old_level = (self.r[R_PSW] & F_CM) >> 11;
        self.r[R_PSW] = self.r[R_PSW] & !F_PM;
        self.r[R_PSW] = self.r[R_PSW] | ((old_level & 3) << 9);
        self.r[R_PSW] = self.r[R_PSW] & !F_CM;
        self.r[R_PSW] = self.r[R_PSW] | ((val & 3) << 11);
        proof {
            assert(old(self).regs().update(
                R_PSW as int,
                spec_set_priv_level(old(self).regs()[R_PSW as int], val),
            ) =~= final(self).regs());
        }
    }
}

/// Independence of the four condition codes: setting or clearing any one of
/// N, Z, V and C leaves the other three exactly as they were, and clearing
/// all four clears exactly those bits of the PSW.
pub proof fn lemma_flag_independence(psw: u32)
    ensures
        forall|a: u32, b: u32|
            (a == F_C || a == F_V || a == F_Z || a == F_N) && (b == F_C || b == F_V || b == F_Z
                || b == F_N) && a != b ==> #[trigger] psw_flag(psw | a, b) == psw_flag(psw, b)
                && psw_flag(psw & !a, b) == psw_flag(psw, b),
        (((psw & !F_C) & !F_V) & !F_Z) & !F_N == psw & !(F_C | F_V | F_Z | F_N),
{
    assert(forall|a: u32, b: u32|
        (a == 0x00040000u32 || a == 0x00080000u32 || a == 0x00100000u32 || a == 0x00200000u32) && (
        b == 0x00040000u32 || b == 0x00080000u32 || b == 0x00100000u32 || b == 0x00200000u32) && a
            != b ==> #[trigger] ((psw | a) & b) == psw & b && ((psw & !a) & b) == psw & b)
        by (bit_vector);
    assert((((psw & !0x00040000u32) & !0x00080000u32) & !0x00100000u32) & !0x00200000u32 == psw & !(
    0x00040000u32 | 0x00080000u32 | 0x00100000u32 | 0x00200000u32)) by (bit_vector);
}

/// The effective memory address an operand denotes. Only memory-addressing
/// modes have one; register, literal and immediate modes are illegal here.
/// All address arithmetic wraps modulo 2^32; the deferred modes then read
/// the word at the computed address (an address fetch) and return that.
pub open spec fn spec_effective_address(regs: Seq<u32>, m: Seq<u8>, op: Operand) -> Result<
    u32,
    CpuError,
> {
    match op.mode {
        AddrMode::RegisterDeferred => match op.register {
            Some(r) => Ok(regs[r as int]),
            None => Err(illegal()),
        },
        AddrMode::Absolute => Ok(op.embedded),
        AddrMode::AbsoluteDeferred => match spec_read_word(m, op.embedded as int) {
            Ok(w) => Ok(w),
            Err(e) => Err(CpuError::Bus(e)),
        },
        AddrMode::FPShortOffset => Ok(
            regs[R_FP as int].wrapping_add(spec_sign_extend_byte(low_byte(op.embedded))),
        ),
        AddrMode::APShortOffset => Ok(
            regs[R_AP as int].wrapping_add(spec_sign_extend_byte(low_byte(op.embedded))),
        ),
        AddrMode::WordDisplacement => match op.register {
            Some(r) => Ok(regs[r as int].wrapping_add(op.embedded)),
            None => Err(illegal()),
        },
        AddrMode::WordDisplacementDeferred => match op.register {
            Some(r) => match spec_read_word(m, regs[r as int].wrapping_add(op.embedded) as int) {
                Ok(w) => Ok(w),
                Err(e) => Err(CpuError::Bus(e)),
            },
            None => Err(illegal()),
        },
        AddrMode::HalfwordDisplacement => match op.register {
            Some(r) => Ok(
                regs[r as int].wrapping_add(spec_sign_extend_halfword(low_half(op.embedded))),
            ),
            None => Err(illegal()),
        },
        AddrMode::HalfwordDisplacementDeferred => match op.register {
            Some(r) => match spec_read_word(
                m,
                regs[r as int].wrapping_add(
                    spec_sign_extend_halfword(low_half(op.embedded)),
                ) as int,
            ) {
                Ok(w) => Ok(w),
                Err(e) => Err(CpuError::Bus(e)),
            },
            None => Err(illegal()),
        },
        AddrMode::ByteDisplacement => match op.register {
            Some(r) => Ok(
                regs[r as int].wrapping_add(spec_sign_extend_byte(low_byte(op.embedded))),
            ),
            None => Err(illegal()),
        },
        AddrMode::ByteDisplacementDeferred => match op.register {
            Some(r) => match spec_read_word(
                m,
                regs[r as int].wrapping_add(spec_sign_extend_byte(low_byte(op.embedded))) as int,
            ) {
                Ok(w) => Ok(w),
                Err(e) => Err(CpuError::Bus(e)),
            },
            None => Err(illegal()),
        },
        _ => Err(illegal()),
    }
}

/// The value an operand reads as: registers reinterpreted through the
/// operand's effective width, literals and immediates extended from their
/// embedded bytes, and memory modes read through the bus at the effective
/// address with the width's extension policy.
pub open spec fn spec_read_op(regs: Seq<u32>, m: Seq<u8>, op: Operand) -> Result<u32, CpuError> {
    match op.mode {
        AddrMode::Register => match op.register {
            Some(r) => match op.effective_type() {
                Data::Word | Data::UWord => Ok(regs[r as int]),
                Data::Half => Ok(spec_sign_extend_halfword(low_half(regs[r as int]))),
                Data::UHalf => Ok(low_half(regs[r as int]) as u32),
                Data::Byte => Ok(low_byte(regs[r as int]) as u32),
                Data::SByte => Ok(spec_sign_extend_byte(low_byte(regs[r as int]))),
                _ => Err(illegal()),
            },
            None => Err(illegal()),
        },
        AddrMode::PositiveLiteral => Ok(spec_sign_extend_byte(low_byte(op.embedded))),
        AddrMode::NegativeLiteral => Ok(spec_sign_extend_byte(low_byte(op.embedded))),
        AddrMode::WordImmediate => Ok(op.embedded),
        AddrMode::HalfwordImmediate => Ok(spec_sign_extend_halfword(low_half(op.embedded))),
        AddrMode::ByteImmediate => Ok(spec_sign_extend_byte(low_byte(op.embedded))),
        _ => match spec_effective_address(regs, m, op) {
            Err(e) => Err(e),
            Ok(ea) => match op.effective_type() {
                Data::UWord | Data::Word => match spec_read_word(m, ea as int) {
                    Ok(w) => Ok(w),
                    Err(e) => Err(CpuError::Bus(e)),
                },
                Data::Half => match spec_read_half(m, ea as int) {
                    Ok(h) => Ok(spec_sign_extend_halfword(h)),
                    Err(e) => Err(CpuError::Bus(e)),
                },
                Data::UHalf => match spec_read_half(m, ea as int) {
                    Ok(h) => Ok(h as u32),
                    Err(e) => Err(CpuError::Bus(e)),
                },
                Data::Byte => match spec_read_byte(m, ea as int) {
                    Ok(b) => Ok(b as u32),
                    Err(e) => Err(CpuError::Bus(e)),
                },
                Data::SByte => match spec_read_byte(m, ea as int) {
                    Ok(b) => Ok(spec_sign_extend_byte(b)),
                    Err(e) => Err(CpuError::Bus(e)),
                },
                _ => Err(illegal()),
            },
        },
    }
}

/// What writing `val` through an operand does: a register operand stores
/// the full word into its register; literals and immediates are illegal
/// destinations; memory modes store the value at the effective address,
/// truncated to the operand's effective width. The result is the new
/// register file and memory.
pub open spec fn spec_write_op(regs: Seq<u32>, bus: Bus, op: Operand, val: u32) -> Result<
    (Seq<u32>, Seq<u8>),
    CpuError,
> {
    match op.mode {
        AddrMode::Register => match op.register {
            Some(r) => Ok((regs.update(r as int, val), bus@)),
            None => Err(illegal()),
        },
        AddrMode::PositiveLiteral => Err(illegal()),
        AddrMode::NegativeLiteral => Err(illegal()),
        AddrMode::ByteImmediate => Err(illegal()),
        AddrMode::HalfwordImmediate => Err(illegal()),
        AddrMode::WordImmediate => Err(illegal()),
        _ => match spec_effective_address(regs, bus@, op) {
            Err(e) => Err(e),
            Ok(ea) => match op.effective_type() {
                Data::UWord | Data::Word => match spec_write_word(bus, ea as int, val) {
                    Ok(m2) => Ok((regs, m2)),
                    Err(e) => Err(CpuError::Bus(e)),
                },
                Data::Half | Data::UHalf => match spec_write_half(bus, ea as int, low_half(val)) {
                    Ok(m2) => Ok((regs, m2)),
                    Err(e) => Err(CpuError::Bus(e)),
                },
                Data::Byte | Data::SByte => match spec_write_byte(bus, ea as int, low_byte(val)) {
                    Ok(m2) => Ok((regs, m2)),
                    Err(e) => Err(CpuError::Bus(e)),
                },
                _ => Err(illegal()),
            },
        },
    }
}

impl Cpu {
    /// Computes the effective address of a memory operand, reading through
    /// the bus for the deferred modes.
    pub fn effective_address(&self, bus: &Bus, op: &Operand) -> (r: Result<u32, CpuError>)
        requires
            op.wf(),
        ensures
            r == spec_effective_address(self.regs(), bus@, *op),
    {
        match op.mode {
            AddrMode::RegisterDeferred => {
                let r = match op.register {
                    Some(v) => v,
                    None => {
                        return Err(CpuError::Exception(CpuException::IllegalOpcode));
                    },
                };
                Ok(self.r[r])
            },
            AddrMode::Absolute => Ok(op.embedded),
            AddrMode::AbsoluteDeferred => {
                match bus.read_word(op.embedded as usize, AccessCode::AddressFetch) {
                    Ok(w) => Ok(w),
                    Err(e) => Err(CpuError::Bus(e)),
                }
            },
            AddrMode::FPShortOffset => Ok(
                self.r[R_FP].wrapping_add(sign_extend_byte(low_byte_x(op.embedded))),
            ),
            AddrMode::APShortOffset => Ok(
                self.r[R_AP].wrapping_add(sign_extend_byte(low_byte_x(op.embedded))),
            ),
            AddrMode::WordDisplacement => {
                let r = match op.register {
                    Some(v) => v,
                    None => {
                        return Err(CpuError::Exception(CpuException::IllegalOpcode));
                    },
                };
                Ok(self.r[r].wrapping_add(op.embedded))
            },
            AddrMode::WordDisplacementDeferred => {
                let r = match op.register {
                    Some(v) => v,
                    None => {
                        return Err(CpuError::Exception(CpuException::IllegalOpcode));
                    },
                };
                match bus.read_word(
                    self.r[r].wrapping_add(op.embedded) as usize,
                    AccessCode::AddressFetch,
                ) {
                    Ok(w) => Ok(w),
                    Err(e) => Err(CpuError::Bus(e)),
                }
            },
            AddrMode::HalfwordDisplacement => {
                let r = match op.register {
                    Some(v) => v,
                    None => {
                        return Err(CpuError::Exception(CpuException::IllegalOpcode));
                    },
                };
                Ok(self.r[r].wrapping_add(sign_extend_halfword(low_half_x(op.embedded))))
            },
            AddrMode::HalfwordDisplacementDeferred => {
                let r = match op.register {
                    Some(v) => v,
                    None => {
                        return Err(CpuError::Exception(CpuException::IllegalOpcode));
                    },
                };
                match bus.read_word(
                    self.r[r].wrapping_add(sign_extend_halfword(low_half_x(op.embedded))) as usize,
                    AccessCode::AddressFetch,
                ) {
                    Ok(w) => Ok(w),
                    Err(e) => Err(CpuError::Bus(e)),
                }
            },
            AddrMode::ByteDisplacement => {
                let r = match op.register {
                    Some(v) => v,
                    None => {
                        return Err(CpuError::Exception(CpuException::IllegalOpcode));
                    },
                };
                Ok(self.r[r].wrapping_add(sign_extend_byte(low_byte_x(op.embedded))))
            },
            AddrMode::ByteDisplacementDeferred => {
                let r = match op.register {
                    Some(v) => v,
                    None => {
                        return Err(CpuError::Exception(CpuException::IllegalOpcode));
                    },
                };
                match bus.read_word(
                    self.r[r].wrapping_add(sign_extend_byte(low_byte_x(op.embedded))) as usize,
                    AccessCode::AddressFetch,
                ) {
                    Ok(w) => Ok(w),
                    Err(e) => Err(CpuError::Bus(e)),
                }
            },
            _ => Err(CpuError::Exception(CpuException::IllegalOpcode)),
        }
    }

    /// Reads the value an operand denotes, with the extension policy of its
    /// effective data width.
    pub fn read_op(&self, bus: &Bus, op: &Operand) -> (r: Result<u32, CpuError>)
        requires
            op.wf(),
        ensures
            r == spec_read_op(self.regs(), bus@, *op),
    {
        match op.mode {
            AddrMode::Register => {
                let r = match op.register {
                    Some(v) => v,
                    None => {
                        return Err(CpuError::Exception(CpuException::IllegalOpcode));
                    },
                };
                match op.data_type() {
                    Data::Word | Data::UWord => Ok(self.r[r]),
                    Data::Half => Ok(sign_extend_halfword(low_half_x(self.r[r]))),
                    Data::UHalf => Ok(low_half_x(self.r[r]) as u32),
                    Data::Byte => Ok(low_byte_x(self.r[r]) as u32),
                    Data::SByte => Ok(sign_extend_byte(low_byte_x(self.r[r]))),
                    _ => Err(CpuError::Exception(CpuException::IllegalOpcode)),
                }
            },
            AddrMode::PositiveLiteral | AddrMode::NegativeLiteral => Ok(
                sign_extend_byte(low_byte_x(op.embedded)),
            ),
            AddrMode::WordImmediate => Ok(op.embedded),
            AddrMode::HalfwordImmediate => Ok(sign_extend_halfword(low_half_x(op.embedded))),
            AddrMode::ByteImmediate => Ok(sign_extend_byte(low_byte_x(op.embedded))),
            _ => {
                let eff = match self.effective_address(bus, op) {
                    Ok(v) => v,
                    Err(e) => {
                        return Err(e);
                    },
                };
                match op.data_type() {
                    Data::UWord | Data::Word => {
                        match bus.read_word(eff as usize, AccessCode::InstrFetch) {
                            Ok(w) => Ok(w),
                            Err(e) => Err(CpuError::Bus(e)),
                        }
                    },
                    Data::Half => {
                        match bus.read_half(eff as usize, AccessCode::InstrFetch) {
                            Ok(h) => Ok(sign_extend_halfword(h)),
                            Err(e) => Err(CpuError::Bus(e)),
                        }
                    },
                    Data::UHalf => {
                        match bus.read_half(eff as usize, AccessCode::InstrFetch) {
                            Ok(h) => Ok(h as u32),
                            Err(e) => Err(CpuError::Bus(e)),
                        }
                    },
                    Data::Byte => {
                        match bus.read_byte(eff as usize, AccessCode::InstrFetch) {
                            Ok(b) => Ok(b as u32),
                            Err(e) => Err(CpuError::Bus(e)),
                        }
                    },
                    Data::SByte => {
                        match bus.read_byte(eff as usize, AccessCode::InstrFetch) {
                            Ok(b) => Ok(sign_extend_byte(b)),
                            Err(e) => Err(CpuError::Bus(e)),
                        }
                    },
                    _ => Err(CpuError::Exception(CpuException::IllegalOpcode)),
                }
            },
        }
    }

    /// Writes `val` through an operand: into its register, or into memory
    /// at the effective address, truncated to the effective width. Literal
    /// and immediate modes are illegal destinations.
    pub fn write_op(&mut self, bus: &mut Bus, op: &Operand, val: u32) -> (r: Result<(), CpuError>)
        requires
            op.wf(),
        ensures
            final(bus).rom() == old(bus).rom(),
            final(bus)@.len() == old(bus)@.len(),
            match r {
                Ok(()) => spec_write_op(old(self).regs(), *old(bus), *op, val) == Ok::<
                    (Seq<u32>, Seq<u8>),
                    CpuError,
                >((final(self).regs(), final(bus)@)),
                Err(e) => spec_write_op(old(self).regs(), *old(bus), *op, val) == Err::<
                    (Seq<u32>, Seq<u8>),
                    CpuError,
                >(e) && final(self).regs() == old(self).regs() && final(bus)@ == old(bus)@,
            },
    {
        match op.mode {
            AddrMode::Register => {
                match op.register {
                    Some(r) => {
                        self.r[r] = val;
                        Ok(())
                    },
                    None => Err(CpuError::Exception(CpuException::IllegalOpcode)),
                }
            },
            AddrMode::NegativeLiteral
            | AddrMode::PositiveLiteral
            | AddrMode::ByteImmediate
            | AddrMode::HalfwordImmediate
            | AddrMode::WordImmediate => Err(CpuError::Exception(CpuException::IllegalOpcode)),
            _ => {
                let eff = match self.effective_address(bus, op) {
                    Ok(v) => v,
                    Err(e) => {
                        return Err(e);
                    },
                };
                match op.data_type() {
                    Data::UWord | Data::Word => {
                        match bus.write_word(eff as usize, val) {
                            Ok(()) => Ok(()),
                            Err(e) => Err(CpuError::Bus(e)),
                        }
                    },
                    Data::Half | Data::UHalf => {
                        match bus.write_half(eff as usize, low_half_x(val)) {
                            Ok(()) => Ok(()),
                            Err(e) => Err(CpuError::Bus(e)),
                        }
                    },
                    Data::Byte | Data::SByte => {
                        match bus.write_byte(eff as usize, low_byte_x(val)) {
                            Ok(()) => Ok(()),
                            Err(e) => Err(CpuError::Bus(e)),
                        }
                    },
                    _ => Err(CpuError::Exception(CpuException::IllegalOpcode)),
                }
            },
        }
    }
}

/// Comparison of an executable decode result with its ghost image.
pub open spec fn instr_matches(d: DecodedInstruction, si: SpecInstr) -> bool {
    &&& d.mnemonic.opcode == si.opcode
    &&& d.mnemonic.dtype == si.dtype
    &&& d.mnemonic.ops@ == si.roles
    &&& d.mnemonic.name == si.name
    &&& d.bytes as int == si.bytes
    &&& d.operands@ == si.operands
}

/// The executable decoder returns exactly what the ghost decoder says: the
/// same instruction on success, the same error on failure.
pub open spec fn decode_result_matches(
    r: Result<DecodedInstruction, CpuError>,
    s: Result<SpecInstr, CpuError>,
) -> bool {
    match (r, s) {
        (Ok(d), Ok(si)) => instr_matches(d, si),
        (Err(e1), Err(e2)) => e1 == e2,
        _ => false,
    }
}

/// What the reset sequence does to the register file: PCBP from physical
/// 0x80, then PSW, PC and SP from the process control block; if the
/// initial-context flag was set it is cleared and PCBP advances by 12
/// (wrapping); finally the internal state code becomes 3. A bus failure
/// stops the sequence and leaves the registers updated as far as it got.
pub open spec fn spec_reset(regs: Seq<u32>, m: Seq<u8>) -> (Result<(), CpuError>, Seq<u32>) {
    match spec_read_word(m, 0x80) {
        Err(e) => (Err(CpuError::Bus(e)), regs),
        Ok(pcbp) => {
            let r1 = regs.update(R_PCBP as int, pcbp);
            match spec_read_word(m, pcbp as int) {
                Err(e) => (Err(CpuError::Bus(e)), r1),
                Ok(psw) => {
                    let r2 = r1.update(R_PSW as int, psw);
                    match spec_read_word(m, pcbp + 4) {
                        Err(e) => (Err(CpuError::Bus(e)), r2),
                        Ok(pc) => {
                            let r3 = r2.update(R_PC as int, pc);
                            match spec_read_word(m, pcbp + 8) {
                                Err(e) => (Err(CpuError::Bus(e)), r3),
                                Ok(sp) => {
                                    let r4 = r3.update(R_SP as int, sp);
                                    let r5 = if psw & F_I != 0 {
                                        r4.update(R_PSW as int, psw & !F_I).update(
                                            R_PCBP as int,
                                            pcbp.wrapping_add(12),
                                        )
                                    } else {
                                        r4
                                    };
                                    let r6 = r5.update(
                                        R_PSW as int,
                                        spec_set_isc(r5[R_PSW as int], 3),
                                    );
                                    (Ok(()), r6)
                                },
                            }
                        },
                    }
                },
            }
        },
    }
}

/// Aligned word read addressed by a 64-bit value, so that callers can form
/// `base + offset` without wrapping even when the base sits at the top of
/// the 32-bit space.
fn read_word_checked(bus: &Bus, addr: u64, access: AccessCode) -> (r: Result<u32, BusError>)
    ensures
        r == spec_read_word(bus@, addr as int),
{
    if addr % 4 != 0 {
        Err(BusError::Alignment)
    } else if addr >= bus.len() as u64 {
        Err(BusError::NoDevice)
    } else {
        bus.read_word(addr as usize, access)
    }
}

/// What a single processor step does: decode at PC, and for the three MOV
/// opcodes move the source value to the destination; every other opcode
/// raises `IllegalOpcode`. On any failure the registers and memory are
/// unchanged. The program counter does not advance.
pub open spec fn spec_step(regs: Seq<u32>, bus: Bus) -> (Result<(), CpuError>, Seq<u32>, Seq<u8>) {
    match spec_decode_instruction(bus@, regs[R_PC as int]) {
        Err(e) => (Err(e), regs, bus@),
        Ok(si) => if si.opcode == 0x84 || si.opcode == 0x86 || si.opcode == 0x87 {
            match spec_read_op(regs, bus@, si.operands[0]) {
                Err(e) => (Err(e), regs, bus@),
                Ok(val) => match spec_write_op(regs, bus, si.operands[1], val) {
                    Err(e) => (Err(e), regs, bus@),
                    Ok((r2, m2)) => (Ok(()), r2, m2),
                },
            }
        } else {
            (Err(illegal()), regs, bus@)
        },
    }
}

impl Cpu {
    /// Performs the documented reset sequence, reading the process control
    /// block through the bus with address-fetch accesses. A failed read
    /// surfaces as a bus error and leaves the registers partially updated.
    pub fn reset(&mut self, bus: &Bus) -> (r: Result<(), CpuError>)
        ensures
            ({
                let (res, regs2) = spec_reset(old(self).regs(), bus@);
                r == res && final(self).regs() == regs2
            }),
    {
        let pcbp = match bus.read_word(0x80, AccessCode::AddressFetch) {
            Ok(w) => w,
            Err(e) => {
                return Err(CpuError::Bus(e));
            },
        };
        self.r[R_PCBP] = pcbp;
        let psw = match read_word_checked(bus, pcbp as u64, AccessCode::AddressFetch) {
            Ok(w) => w,
            Err(e) => {
                return Err(CpuError::Bus(e));
            },
        };
        self.r[R_PSW] = psw;
        let pc = match read_word_checked(bus, pcbp as u64 + 4, AccessCode::AddressFetch) {
            Ok(w) => w,
            Err(e) => {
                return Err(CpuError::Bus(e));
            },
        };
        self.r[R_PC] = pc;
        let sp = match read_word_checked(bus, pcbp as u64 + 8, AccessCode::AddressFetch) {
            Ok(w) => w,
            Err(e) => {
                return Err(CpuError::Bus(e));
            },
        };
        self.r[R_SP] = sp;
        if psw & F_I != 0 {
            self.r[R_PSW] = psw & !F_I;
            self.r[R_PCBP] = pcbp.wrapping_add(12);
        }
        self.set_isc(3);
        proof {
            let (res, regs2) = spec_reset(old(self).regs(), bus@);
            assert(final(self).regs() =~= regs2);
        }
        Ok(())
    }

    /// Decodes a literal-role operand: raw data of the mnemonic's width.
    pub fn decode_operand_literal(&self, bus: &Bus, mn: &Mnemonic, addr: usize) -> (r: Result<
        Operand,
        CpuError,
    >)
        ensures
            r == spec_decode_literal(bus@, mn.dtype, addr as int),
            r matches Ok(op) ==> op.wf() && 1 <= op.size <= 6 && addr + op.size <= bus@.len(),
    {
        proof {
            lemma_literal_props(bus@, mn.dtype, addr as int);
        }
        match mn.dtype {
            Data::Byte => match bus.read_byte(addr, AccessCode::OperandFetch) {
                Ok(b) => Ok(Operand::new(1, AddrMode::NoMode, Data::Byte, None, None, b as u32)),
                Err(e) => Err(CpuError::Bus(e)),
            },
            Data::Half => match bus.read_half_unaligned(addr, AccessCode::OperandFetch) {
                Ok(h) => Ok(Operand::new(2, AddrMode::NoMode, Data::Half, None, None, h as u32)),
                Err(e) => Err(CpuError::Bus(e)),
            },
            Data::Word => match bus.read_word_unaligned(addr, AccessCode::OperandFetch) {
                Ok(w) => Ok(Operand::new(4, AddrMode::NoMode, Data::Word, None, None, w)),
                Err(e) => Err(CpuError::Bus(e)),
            },
            _ => Err(CpuError::Exception(CpuException::IllegalOpcode)),
        }
    }

    /// Decodes one source or destination descriptor at `addr`. `recur` is
    /// set only on the self-call that follows an expanded-type prefix.
    pub fn decode_operand_descriptor(
        &self,
        bus: &Bus,
        dtype: Data,
        etype: Option<Data>,
        addr: usize,
        recur: bool,
    ) -> (r: Result<Operand, CpuError>)
        requires
            bus.wf(),
        ensures
            r == spec_decode_descriptor(bus@, dtype, etype, addr as int, recur),
            r matches Ok(op) ==> op.wf() && 1 <= op.size <= 6 && addr + op.size - (if recur {
                1int
            } else {
                0int
            }) <= bus@.len(),
        decreases (if recur {
            0int
        } else {
            1int
        }),
    {
        proof {
            lemma_descriptor_props(bus@, dtype, etype, addr as int, recur);
        }
        let descriptor_byte = match bus.read_byte(addr, AccessCode::OperandFetch) {
            Ok(b) => b,
            Err(e) => {
                return Err(CpuError::Bus(e));
            },
        };
        let m = descriptor_byte >> 4;
        let r = descriptor_byte & 0xf;
        let dsize: u8 = if recur {
            2
        } else {
            1
        };
        match m {
            0 | 1 | 2 | 3 => Ok(
                Operand::new(
                    dsize,
                    AddrMode::PositiveLiteral,
                    dtype,
                    etype,
                    None,
                    descriptor_byte as u32,
                ),
            ),
            4 => {
                match r {
                    15 => match bus.read_word_unaligned(addr + 1, AccessCode::OperandFetch) {
                        Ok(w) => Ok(
                            Operand::new(dsize + 4, AddrMode::WordImmediate, dtype, etype, None, w),
                        ),
                        Err(e) => Err(CpuError::Bus(e)),
                    },
                    _ => Ok(
                        Operand::new(
                            dsize,
                            AddrMode::Register,
                            dtype,
                            etype,
                            Some(r as usize),
                            0,
                        ),
                    ),
                }
            },
            5 => {
                match r {
                    15 => match bus.read_half_unaligned(addr + 1, AccessCode::OperandFetch) {
                        Ok(h) => Ok(
                            Operand::new(
                                dsize + 2,
                                AddrMode::HalfwordImmediate,
                                dtype,
                                etype,
                                None,
                                h as u32,
                            ),
                        ),
                        Err(e) => Err(CpuError::Bus(e)),
                    },
                    11 => Err(CpuError::Exception(CpuException::IllegalOpcode)),
                    _ => Ok(
                        Operand::new(
                            dsize,
                            AddrMode::RegisterDeferred,
                            dtype,
                            etype,
                            Some(r as usize),
                            0,
                        ),
                    ),
                }
            },
            6 => {
                match r {
                    15 => match bus.read_byte(addr + 1, AccessCode::OperandFetch) {
                        Ok(b) => Ok(
                            Operand::new(
                                dsize + 1,
                                AddrMode::ByteImmediate,
                                dtype,
                                etype,
                                None,
                                b as u32,
                            ),
                        ),
                        Err(e) => Err(CpuError::Bus(e)),
                    },
                    _ => Ok(
                        Operand::new(
                            dsize,
                            AddrMode::FPShortOffset,
                            dtype,
                            etype,
                            Some(R_FP),
                            r as u32,
                        ),
                    ),
                }
            },
            7 => {
                match r {
                    15 => match bus.read_word_unaligned(addr + 1, AccessCode::OperandFetch) {
                        Ok(w) => Ok(
                            Operand::new(dsize + 4, AddrMode::Absolute, dtype, etype, None, w),
                        ),
                        Err(e) => Err(CpuError::Bus(e)),
                    },
                    _ => Ok(
                        Operand::new(
                            dsize,
                            AddrMode::APShortOffset,
                            dtype,
                            etype,
                            Some(R_AP),
                            r as u32,
                        ),
                    ),
                }
            },
            8 => {
                match r {
                    11 => Err(CpuError::Exception(CpuException::IllegalOpcode)),
                    _ => match bus.read_word_unaligned(addr + 1, AccessCode::OperandFetch) {
                        Ok(w) => Ok(
                            Operand::new(
                                dsize + 4,
                                AddrMode::WordDisplacement,
                                dtype,
                                etype,
                                Some(r as usize),
                                w,
                            ),
                        ),
                        Err(e) => Err(CpuError::Bus(e)),
                    },
                }
            },
            9 => {
                match r {
                    11 => Err(CpuError::Exception(CpuException::IllegalOpcode)),
                    _ => match bus.read_word_unaligned(addr + 1, AccessCode::OperandFetch) {
                        Ok(w) => Ok(
                            Operand::new(
                                dsize + 4,
                                AddrMode::WordDisplacementDeferred,
                                dtype,
                                etype,
                                Some(r as usize),
                                w,
                            ),
                        ),
                        Err(e) => Err(CpuError::Bus(e)),
                    },
                }
            },
            10 => {
                match r {
                    11 => Err(CpuError::Exception(CpuException::IllegalOpcode)),
                    _ => match bus.read_half_unaligned(addr + 1, AccessCode::OperandFetch) {
                        Ok(h) => Ok(
                            Operand::new(
                                dsize + 2,
                                AddrMode::HalfwordDisplacement,
                                dtype,
                                etype,
                                Some(r as usize),
                                h as u32,
                            ),
                        ),
                        Err(e) => Err(CpuError::Bus(e)),
                    },
                }
            },
            11 => {
                match r {
                    11 => Err(CpuError::Exception(CpuException::IllegalOpcode)),
                    _ => match bus.read_half_unaligned(addr + 1, AccessCode::OperandFetch) {
                        Ok(h) => Ok(
                            Operand::new(
                                dsize + 2,
                                AddrMode::HalfwordDisplacementDeferred,
                                dtype,
                                etype,
                                Some(r as usize),
                                h as u32,
                            ),
                        ),
                        Err(e) => Err(CpuError::Bus(e)),
                    },
                }
            },
            12 => {
                match r {
                    11 => Err(CpuError::Exception(CpuException::IllegalOpcode)),
                    _ => match bus.read_byte(addr + 1, AccessCode::OperandFetch) {
                        Ok(b) => Ok(
                            Operand::new(
                                dsize + 1,
                                AddrMode::ByteDisplacement,
                                dtype,
                                etype,
                                Some(r as usize),
                                b as u32,
                            ),
                        ),
                        Err(e) => Err(CpuError::Bus(e)),
                    },
                }
            },
            13 => {
                match r {
                    11 => Err(CpuError::Exception(CpuException::IllegalOpcode)),
                    _ => match bus.read_byte(addr + 1, AccessCode::OperandFetch) {
                        Ok(b) => Ok(
                            Operand::new(
                                dsize + 1,
                                AddrMode::ByteDisplacementDeferred,
                                dtype,
                                etype,
                                Some(r as usize),
                                b as u32,
                            ),
                        ),
                        Err(e) => Err(CpuError::Bus(e)),
                    },
                }
            },
            14 => {
                if recur {
                    Err(CpuError::Exception(CpuException::IllegalOpcode))
                } else {
                    match r {
                        0 => self.decode_operand_descriptor(
                            bus,
                            dtype,
                            Some(Data::UWord),
                            addr + 1,
                            true,
                        ),
                        2 => self.decode_operand_descriptor(
                            bus,
                            dtype,
                            Some(Data::UHalf),
                            addr + 1,
                            true,
                        ),
                        3 => self.decode_operand_descriptor(
                            bus,
                            dtype,
                            Some(Data::Byte),
                            addr + 1,
                            true,
                        ),
                        4 => self.decode_operand_descriptor(
                            bus,
                            dtype,
                            Some(Data::Word),
                            addr + 1,
                            true,
                        ),
                        6 => self.decode_operand_descriptor(
                            bus,
                            dtype,
                            Some(Data::Half),
                            addr + 1,
                            true,
                        ),
                        7 => self.decode_operand_descriptor(
                            bus,
                            dtype,
                            Some(Data::SByte),
                            addr + 1,
                            true,
                        ),
                        _ => Err(CpuError::Exception(CpuException::IllegalOpcode)),
                    }
                }
            },
            _ => {
                proof {
                    assert(descriptor_byte >> 4 <= 15) by (bit_vector);
                }
                Ok(
                    Operand::new(
                        dsize,
                        AddrMode::NegativeLiteral,
                        dtype,
                        etype,
                        None,
                        descriptor_byte as u32,
                    ),
                )
            },
        }
    }

    /// Decodes one operand of the given role: literal data for `Lit`, a
    /// descriptor for `Src` and `Dest`.
    pub fn decode_operand(
        &self,
        bus: &Bus,
        mn: &Mnemonic,
        ot: &OpType,
        etype: Option<Data>,
        addr: usize,
    ) -> (r: Result<Operand, CpuError>)
        requires
            bus.wf(),
        ensures
            r == (match *ot {
                OpType::Lit => spec_decode_literal(bus@, mn.dtype, addr as int),
                _ => spec_decode_descriptor(bus@, mn.dtype, etype, addr as int, false),
            }),
            etype is None ==> r == spec_decode_operand(bus@, mn.dtype, *ot, addr as int),
            r matches Ok(op) ==> op.wf() && 1 <= op.size <= 6 && addr + op.size <= bus@.len(),
    {
        match *ot {
            OpType::Lit => self.decode_operand_literal(bus, mn, addr),
            OpType::Src | OpType::Dest => self.decode_operand_descriptor(
                bus,
                mn.dtype,
                etype,
                addr,
                false,
            ),
        }
    }

    /// Decodes the instruction at the program counter. The result matches
    /// the ghost decoder exactly, every operand is well-formed, there is
    /// one operand per role of the mnemonic, and the total length equals
    /// the opcode prefix length (two bytes after a 0x30 prefix, else one)
    /// plus the sum of the operand sizes.
    pub fn decode_instruction(&self, bus: &Bus) -> (r: Result<DecodedInstruction, CpuError>)
        requires
            bus.wf(),
        ensures
            decode_result_matches(r, spec_decode_instruction(bus@, self.regs()[R_PC as int])),
            r matches Ok(d) ==> {
                &&& d.operands@.len() == d.mnemonic.ops@.len()
                &&& (forall|i: int| 0 <= i < d.operands@.len() ==> (#[trigger] d.operands@[i]).wf())
                &&& d.bytes as int == (if spec_read_byte(
                    bus@,
                    self.regs()[R_PC as int] as int,
                ) == Ok::<u8, BusError>(0x30u8) {
                    2int
                } else {
                    1int
                }) + sum_sizes(d.operands@)
            },
    {
        let ghost m0 = bus@;
        let pc = self.r[R_PC];
        let mut addr: usize = pc as usize;
        let b1 = match bus.read_byte(addr, AccessCode::InstrFetch) {
            Ok(b) => b,
            Err(e) => {
                return Err(CpuError::Bus(e));
            },
        };
        addr = addr + 1;
        let prefix_len: u8 = if b1 == 0x30 {
            2
        } else {
            1
        };
        let mn: Mnemonic = if b1 == 0x30 {
            let b2 = match bus.read_byte(addr, AccessCode::InstrFetch) {
                Ok(b) => b,
                Err(e) => {
                    return Err(CpuError::Bus(e));
                },
            };
            addr = addr + 1;
            match halfword_mnemonic(b2) {
                Some(m) => m,
                None => {
                    return Err(CpuError::Exception(CpuException::IllegalOpcode));
                },
            }
        } else {
            opcode_mnemonic(b1)
        };
        let ghost dt = mn.dtype;
        let ghost roles = mn.ops@;
        let ghost a0 = addr as int;
        let n = mn.ops.len();
        let mut operands: Vec<Operand> = Vec::new();
        let mut total: u8 = 0;
        let mut i: usize = 0;
        proof {
            assert(roles.skip(0) =~= roles);
            match spec_decode_operands(m0, dt, roles, a0) {
                Ok(rest) => {
                    assert(Seq::<Operand>::empty() + rest =~= rest);
                },
                Err(_) => {},
            }
        }
        while i < n
            invariant
                bus.wf(),
                bus@ == m0,
                i <= n,
                n == roles.len(),
                roles.len() <= 4,
                mn.dtype == dt,
                mn.ops@ == roles,
                operands@.len() == i,
                total as int == sum_sizes(operands@),
                total <= 6 * i,
                addr as int == a0 + sum_sizes(operands@),
                0 <= a0,
                i > 0 ==> addr <= bus@.len(),
                pc == self.regs()[R_PC as int],
                prefix_len == (if b1 == 0x30 {
                    2int
                } else {
                    1int
                }),
                spec_read_byte(m0, pc as int) == Ok::<u8, BusError>(b1),
                match spec_decode_operands(m0, dt, roles.skip(i as int), addr as int) {
                    Ok(rest) => spec_decode_operands(m0, dt, roles, a0) == Ok::<
                        Seq<Operand>,
                        CpuError,
                    >(operands@ + rest),
                    Err(e) => spec_decode_operands(m0, dt, roles, a0) == Err::<
                        Seq<Operand>,
                        CpuError,
                    >(e),
                },
                match spec_decode_operands(m0, dt, roles, a0) {
                    Ok(all) => spec_decode_instruction(m0, pc) == Ok::<SpecInstr, CpuError>(
                        (SpecInstr {
                            opcode: mn.opcode,
                            halfword: b1 == 0x30,
                            dtype: dt,
                            roles: roles,
                            name: mn.name,
                            bytes: prefix_len as int + sum_sizes(all),
                            operands: all,
                        }),
                    ),
                    Err(e) => spec_decode_instruction(m0, pc) == Err::<SpecInstr, CpuError>(e),
                },
            decreases n - i,
        {
            let ot = mn.ops[i];
            proof {
                assert(roles.skip(i as int)[0] == roles[i as int]);
                assert(roles.skip(i as int).drop_first() =~= roles.skip(i as int + 1));
            }
            let o = match self.decode_operand(bus, &mn, &ot, None, addr) {
                Ok(o) => o,
                Err(e) => {
                    return Err(e);
                },
            };
            proof {
                lemma_sum_sizes_push(operands@, o);
                match spec_decode_operands(m0, dt, roles.skip(i as int + 1), addr + o.size) {
                    Ok(rest2) => {
                        assert(operands@ + (seq![o] + rest2) =~= operands@.push(o) + rest2);
                    },
                    Err(_) => {},
                }
            }
            addr = addr + o.size as usize;
            total = total + o.size;
            operands.push(o);
            i = i + 1;
        }
        proof {
            assert(roles.skip(n as int) =~= Seq::<OpType>::empty());
            assert(operands@ + Seq::<Operand>::empty() =~= operands@);
            assert(sum_sizes(Seq::<Operand>::empty()) == 0);
            lemma_operands_props(m0, dt, roles, a0);
        }
        let bytes = total + prefix_len;
        Ok(DecodedInstruction { mnemonic: mn, bytes, operands })
    }

    /// Executes one instruction at the program counter: the MOV opcodes
    /// move their source value into their destination; anything else
    /// raises `IllegalOpcode`. The program counter is not advanced.
    pub fn step(&mut self, bus: &mut Bus) -> (r: Result<(), CpuError>)
        requires
            old(bus).wf(),
        ensures
            final(bus).wf(),
            final(bus).rom() == old(bus).rom(),
            r == spec_step(old(self).regs(), *old(bus)).0,
            final(self).regs() == spec_step(old(self).regs(), *old(bus)).1,
            final(bus)@ == spec_step(old(self).regs(), *old(bus)).2,
    {
        let instr = match self.decode_instruction(bus) {
            Ok(d) => d,
            Err(e) => {
                proof {
                    assert(spec_step(old(self).regs(), *old(bus)).0 == Err::<(), CpuError>(e));
                }
                return Err(e);
            },
        };
        match instr.mnemonic.opcode {
            0x84 | 0x86 | 0x87 => {
                proof {
                    let pc0 = old(self).regs()[R_PC as int] as u32;
                    match spec_decode_instruction(old(bus)@, pc0) {
                        Ok(si) => {
                            match spec_read_byte(old(bus)@, pc0 as int) {
                                Ok(b1) => {
                                    if b1 == 0x30 {
                                        match spec_read_byte(old(bus)@, pc0 + 1) {
                                            Ok(b2) => {
                                                assert(b2 as usize == si.opcode);
                                                assert(!is_halfword_opcode(b2));
                                            },
                                            Err(_) => {},
                                        }
                                    } else {
                                        assert(b1 as usize == si.opcode);
                                        assert(op_info(b1).roles.len() == 2);
                                    }
                                },
                                Err(_) => {},
                            }
                        },
                        Err(_) => {},
                    }
                }
                let val = match self.read_op(bus, &instr.operands[0]) {
                    Ok(v) => v,
                    Err(e) => {
                        proof {
                            assert(spec_step(old(self).regs(), *old(bus)).0 == Err::<
                                (),
                                CpuError,
                            >(e));
                        }
                        return Err(e);
                    },
                };
                match self.write_op(bus, &instr.operands[1], val) {
                    Ok(()) => {
                        proof {
                            assert(spec_step(old(self).regs(), *old(bus)).0 == Ok::<
                                (),
                                CpuError,
                            >(()));
                        }
                        Ok(())
                    },
                    Err(e) => {
                        proof {
                            assert(spec_step(old(self).regs(), *old(bus)).0 == Err::<
                                (),
                                CpuError,
                            >(e));
                        }
                        Err(e)
                    },
                }
            },
            _ => {
                proof {
                    assert(spec_step(old(self).regs(), *old(bus)).0 == Err::<(), CpuError>(
                        illegal(),
                    ));
                }
                Err(CpuError::Exception(CpuException::IllegalOpcode))
            },
        }
    }
}

} // verus!
