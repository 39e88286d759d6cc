use vstd::prelude::*;

use crate::bus::{spec_read_byte, spec_read_half_unaligned, spec_read_word_unaligned};
use crate::err::{CpuError, CpuException};
use crate::instr::{AddrMode, Data, OpType, Operand, R_AP, R_FP};
use crate::optable::{is_halfword_opcode, halfword_name, op_info};

verus! {

/// The one exception the decoder raises.
pub open spec fn illegal() -> CpuError {
    CpuError::Exception(CpuException::IllegalOpcode)
}

/// Data width selected by the low nibble of an expanded-type prefix byte;
/// `None` for the selectors the processor leaves undefined.
pub open spec fn expand_sel(r: u8) -> Option<Data> {
    if r == 0 {
        Some(Data::UWord)
    } else if r == 2 {
        Some(Data::UHalf)
    } else if r == 3 {
        Some(Data::Byte)
    } else if r == 4 {
        Some(Data::Word)
    } else if r == 6 {
        Some(Data::Half)
    } else if r == 7 {
        Some(Data::SByte)
    } else {
        None
    }
}

/// What decoding one descriptor at `addr` yields. `dtype` is the mnemonic's
/// intrinsic width, `etype` the inherited expanded type, and `recur` is set
/// on the recursive call that follows an expanded-type prefix, so that the
/// prefix byte is counted in every size the inner decode reports. A nested
/// prefix inside a prefixed descriptor is illegal.
pub open spec fn spec_decode_descriptor(
    m: Seq<u8>,
    dtype: Data,
    etype: Option<Data>,
    addr: int,
    recur: bool,
) -> Result<Operand, CpuError>
    decreases (if recur {
        0int
    } else {
        1int
    }),
{
    match spec_read_byte(m, addr) {
        Err(e) => Err(CpuError::Bus(e)),
        Ok(db) => {
            let mm = db >> 4;
            let r = db & 0xf;
            let dsize: u8 = if recur {
                2
            } else {
                1
            };
            if mm <= 3 {
                Ok(
                    Operand {
                        size: dsize,
                        mode: AddrMode::PositiveLiteral,
                        data_type: dtype,
                        expanded_type: etype,
                        register: None,
                        embedded: db as u32,
                    },
                )
            } else if mm == 4 {
                if r == 15 {
                    match spec_read_word_unaligned(m, addr + 1) {
                        Err(e) => Err(CpuError::Bus(e)),
                        Ok(w) => Ok(
                            Operand {
                                size: (dsize + 4) as u8,
                                mode: AddrMode::WordImmediate,
                                data_type: dtype,
                                expanded_type: etype,
                                register: None,
                                embedded: w,
                            },
                        ),
                    }
                } else {
                    Ok(
                        Operand {
                            size: dsize,
                            mode: AddrMode::Register,
                            data_type: dtype,
                            expanded_type: etype,
                            register: Some(r as usize),
                            embedded: 0,
                        },
                    )
                }
            } else if mm == 5 {
                if r == 15 {
                    match spec_read_half_unaligned(m, addr + 1) {
                        Err(e) => Err(CpuError::Bus(e)),
                        Ok(h) => Ok(
                            Operand {
                                size: (dsize + 2) as u8,
                                mode: AddrMode::HalfwordImmediate,
                                data_type: dtype,
                                expanded_type: etype,
                                register: None,
                                embedded: h as u32,
                            },
                        ),
                    }
                } else if r == 11 {
                    Err(illegal())
                } else {
                    Ok(
                        Operand {
                            size: dsize,
                            mode: AddrMode::RegisterDeferred,
                            data_type: dtype,
                            expanded_type: etype,
                            register: Some(r as usize),
                            embedded: 0,
                        },
                    )
                }
            } else if mm == 6 {
                if r == 15 {
                    match spec_read_byte(m, addr + 1) {
                        Err(e) => Err(CpuError::Bus(e)),
                        Ok(b) => Ok(
                            Operand {
                                size: (dsize + 1) as u8,
                                mode: AddrMode::ByteImmediate,
                                data_type: dtype,
                                expanded_type: etype,
                                register: None,
                                embedded: b as u32,
                            },
                        ),
                    }
                } else {
                    Ok(
                        Operand {
                            size: dsize,
                            mode: AddrMode::FPShortOffset,
                            data_type: dtype,
                            expanded_type: etype,
                            register: Some(R_FP),
                            embedded: r as u32,
                        },
                    )
                }
            } else if mm == 7 {
                if r == 15 {
                    match spec_read_word_unaligned(m, addr + 1) {
                        Err(e) => Err(CpuError::Bus(e)),
                        Ok(w) => Ok(
                            Operand {
                                size: (dsize + 4) as u8,
                                mode: AddrMode::Absolute,
                                data_type: dtype,
                                expanded_type: etype,
                                register: None,
                                embedded: w,
                            },
                        ),
                    }
                } else {
                    Ok(
                        Operand {
                            size: dsize,
                            mode: AddrMode::APShortOffset,
                            data_type: dtype,
                            expanded_type: etype,
                            register: Some(R_AP),
                            embedded: r as u32,
                        },
                    )
                }
            } else if mm == 8 || mm == 9 {
                if r == 11 {
                    Err(illegal())
                } else {
                    match spec_read_word_unaligned(m, addr + 1) {
                        Err(e) => Err(CpuError::Bus(e)),
                        Ok(w) => Ok(
                            Operand {
                                size: (dsize + 4) as u8,
                                mode: if mm == 8 {
                                    AddrMode::WordDisplacement
                                } else {
                                    AddrMode::WordDisplacementDeferred
                                },
                                data_type: dtype,
                                expanded_type: etype,
                                register: Some(r as usize),
                                embedded: w,
                            },
                        ),
                    }
                }
            } else if mm == 10 || mm == 11 {
                if r == 11 {
                    Err(illegal())
                } else {
                    match spec_read_half_unaligned(m, addr + 1) {
                        Err(e) => Err(CpuError::Bus(e)),
                        Ok(h) => Ok(
                            Operand {
                                size: (dsize + 2) as u8,
                                mode: if mm == 10 {
                                    AddrMode::HalfwordDisplacement
                                } else {
                                    AddrMode::HalfwordDisplacementDeferred
                                },
                                data_type: dtype,
                                expanded_type: etype,
                                register: Some(r as usize),
                                embedded: h as u32,
                            },
                        ),
                    }
                }
            } else if mm == 12 || mm == 13 {
                if r == 11 {
                    Err(illegal())
                } else {
                    match spec_read_byte(m, addr + 1) {
                        Err(e) => Err(CpuError::Bus(e)),
                        Ok(b) => Ok(
                            Operand {
                                size: (dsize + 1) as u8,
                                mode: if mm == 12 {
                                    AddrMode::ByteDisplacement
                                } else {
                                    AddrMode::ByteDisplacementDeferred
                                },
                                data_type: dtype,
                                expanded_type: etype,
                                register: Some(r as usize),
                                embedded: b as u32,
                            },
                        ),
                    }
                }
            } else if mm == 14 {
                if recur {
                    Err(illegal())
                } else {
                    match expand_sel(r) {
                        Some(t) => spec_decode_descriptor(m, dtype, Some(t), addr + 1, true),
                        None => Err(illegal()),
                    }
                }
            } else {
                Ok(
                    Operand {
                        size: dsize,
                        mode: AddrMode::NegativeLiteral,
                        data_type: dtype,
                        expanded_type: etype,
                        register: None,
                        embedded: db as u32,
                    },
                )
            }
        },
    }
}

/// What decoding a literal-role operand yields: raw little-endian data of
/// the mnemonic's width; any width other than byte, halfword or word is
/// illegal.
pub open spec fn spec_decode_literal(m: Seq<u8>, dtype: Data, addr: int) -> Result<
    Operand,
    CpuError,
> {
    match dtype {
        Data::Byte => match spec_read_byte(m, addr) {
            Err(e) => Err(CpuError::Bus(e)),
            Ok(b) => Ok(
                Operand {
                    size: 1,
                    mode: AddrMode::NoMode,
                    data_type: Data::Byte,
                    expanded_type: None,
                    register: None,
                    embedded: b as u32,
                },
            ),
        },
        Data::Half => match spec_read_half_unaligned(m, addr) {
            Err(e) => Err(CpuError::Bus(e)),
            Ok(h) => Ok(
                Operand {
                    size: 2,
                    mode: AddrMode::NoMode,
                    data_type: Data::Half,
                    expanded_type: None,
                    register: None,
                    embedded: h as u32,
                },
            ),
        },
        Data::Word => match spec_read_word_unaligned(m, addr) {
            Err(e) => Err(CpuError::Bus(e)),
            Ok(w) => Ok(
                Operand {
                    size: 4,
                    mode: AddrMode::NoMode,
                    data_type: Data::Word,
                    expanded_type: None,
                    register: None,
                    embedded: w,
                },
            ),
        },
        _ => Err(illegal()),
    }
}

/// What decoding one operand of the given role yields. Each source or
/// destination operand starts with a fresh (empty) inherited expanded type:
/// an expansion prefix affects exactly the operand it precedes.
pub open spec fn spec_decode_operand(m: Seq<u8>, dtype: Data, role: OpType, addr: int) -> Result<
    Operand,
    CpuError,
> {
    match role {
        OpType::Lit => spec_decode_literal(m, dtype, addr),
        OpType::Src => spec_decode_descriptor(m, dtype, None, addr, false),
        OpType::Dest => spec_decode_descriptor(m, dtype, None, addr, false),
    }
}

/// Decodes the operands for a role list in order, each starting where the
/// previous one ended; the first failure aborts the whole decode.
pub open spec fn spec_decode_operands(
    m: Seq<u8>,
    dtype: Data,
    roles: Seq<OpType>,
    addr: int,
) -> Result<Seq<Operand>, CpuError>
    decreases roles.len(),
{
    if roles.len() == 0 {
        Ok(Seq::empty())
    } else {
        match spec_decode_operand(m, dtype, roles[0], addr) {
            Err(e) => Err(e),
            Ok(op) => match spec_decode_operands(m, dtype, roles.drop_first(), addr + op.size) {
                Err(e) => Err(e),
                Ok(rest) => Ok(seq![op] + rest),
            },
        }
    }
}

/// Total number of instruction bytes the operands consumed.
pub open spec fn sum_sizes(ops: Seq<Operand>) -> int
    decreases ops.len(),
{
    if ops.len() == 0 {
        0
    } else {
        ops[0].size + sum_sizes(ops.drop_first())
    }
}

/// Ghost image of a fully decoded instruction.
pub ghost struct SpecInstr {
    /// Opcode byte; for a half-word instruction, its second byte.
    pub opcode: usize,
    /// Whether the instruction came through the 0x30 prefix.
    pub halfword: bool,
    pub dtype: Data,
    pub roles: Seq<OpType>,
    pub name: &'static str,
    /// Total instruction length: the opcode byte or bytes plus all operands.
    pub bytes: int,
    pub operands: Seq<Operand>,
}

/// What decoding the instruction at `pc` yields. A first byte of 0x30
/// selects the half-word table by the second byte (a byte outside that
/// table is illegal); any other first byte indexes the primary table, and
/// the operands follow it directly.
pub open spec fn spec_decode_instruction(m: Seq<u8>, pc: u32) -> Result<SpecInstr, CpuError> {
    match spec_read_byte(m, pc as int) {
        Err(e) => Err(CpuError::Bus(e)),
        Ok(b1) => if b1 == 0x30 {
            match spec_read_byte(m, pc + 1) {
                Err(e) => Err(CpuError::Bus(e)),
                Ok(b2) => if is_halfword_opcode(b2) {
                    Ok(
                        SpecInstr {
                            opcode: b2 as usize,
                            halfword: true,
                            dtype: Data::NoData,
                            roles: Seq::empty(),
                            name: halfword_name(b2),
                            bytes: 2,
                            operands: Seq::empty(),
                        },
                    )
                } else {
                    Err(illegal())
                },
            }
        } else {
            match spec_decode_operands(m, op_info(b1).dtype, op_info(b1).roles, pc + 1) {
                Err(e) => Err(e),
                Ok(ops) => Ok(
                    SpecInstr {
                        opcode: b1 as usize,
                        halfword: false,
                        dtype: op_info(b1).dtype,
                        roles: op_info(b1).roles,
                        name: op_info(b1).name,
                        bytes: 1 + sum_sizes(ops),
                        operands: ops,
                    },
                ),
            }
        },
    }
}

/// The expanded type that a prefix byte at `a` would give the operand it
/// precedes; `None` when the byte there is not a defined prefix.
pub open spec fn prefix_expansion(m: Seq<u8>, a: int) -> Option<Data> {
    if 0 <= a < m.len() && (m[a] >> 4) == 14 {
        expand_sel(m[a] & 0xf)
    } else {
        None
    }
}

/// Structural facts about a successfully decoded descriptor: its register
/// index (when present) is in range, its size covers exactly the bytes it
/// read (so consecutive operands tile the stream and stay inside memory),
/// and its expanded type is the prefix's selection when the descriptor
/// began with a prefix, else the inherited one.
pub proof fn lemma_descriptor_props(m: Seq<u8>, dtype: Data, etype: Option<Data>, a: int, recur: bool)
    ensures
        spec_decode_descriptor(m, dtype, etype, a, recur) matches Ok(op) ==> {
            &&& op.wf()
            &&& (if recur {
                2int
            } else {
                1int
            }) <= op.size <= 6
            &&& a + op.size - (if recur {
                1int
            } else {
                0int
            }) <= m.len()
            &&& 0 <= a < m.len()
            &&& op.expanded_type == (if !recur && (m[a] >> 4) == 14 {
                expand_sel(m[a] & 0xf)
            } else {
                etype
            })
        },
    decreases (if recur {
        0int
    } else {
        1int
    }),
{
    if 0 <= a < m.len() {
        let db = m[a];
        assert((db >> 4) <= 15 && (db & 0xf) <= 15) by (bit_vector);
        let mm = db >> 4;
        let r = db & 0xf;
        if mm == 14 && !recur {
            match expand_sel(r) {
                Some(t) => {
                    lemma_descriptor_props(m, dtype, Some(t), a + 1, true);
                },
                None => {},
            }
        }
    }
}

/// Structural facts about a successfully decoded literal operand.
pub proof fn lemma_literal_props(m: Seq<u8>, dtype: Data, a: int)
    ensures
        spec_decode_literal(m, dtype, a) matches Ok(op) ==> {
            &&& op.wf()
            &&& 1 <= op.size <= 4
            &&& 0 <= a
            &&& a + op.size <= m.len()
            &&& op.expanded_type is None
        },
{
}

/// Structural facts about one decoded operand of either role.
pub proof fn lemma_operand_props(m: Seq<u8>, dtype: Data, role: OpType, a: int)
    ensures
        spec_decode_operand(m, dtype, role, a) matches Ok(op) ==> {
            &&& op.wf()
            &&& 1 <= op.size <= 6
            &&& 0 <= a
            &&& a + op.size <= m.len()
            &&& op.expanded_type == (match role {
                OpType::Lit => Option::<Data>::None,
                _ => prefix_expansion(m, a),
            })
        },
{
    match role {
        OpType::Lit => lemma_literal_props(m, dtype, a),
        _ => lemma_descriptor_props(m, dtype, None, a, false),
    }
}

/// Appending one operand adds its size to the total.
pub proof fn lemma_sum_sizes_push(ops: Seq<Operand>, op: Operand)
    ensures
        sum_sizes(ops.push(op)) == sum_sizes(ops) + op.size,
    decreases ops.len(),
{
    if ops.len() == 0 {
        assert(ops.push(op)[0] == op);
        assert(ops.push(op).drop_first() =~= Seq::<Operand>::empty());
        assert(sum_sizes(Seq::<Operand>::empty()) == 0);
        assert(sum_sizes(ops.push(op)) == ops.push(op)[0].size + sum_sizes(
            ops.push(op).drop_first(),
        ));
    } else {
        assert(ops.push(op)[0] == ops[0]);
        assert(ops.push(op).drop_first() =~= ops.drop_first().push(op));
        lemma_sum_sizes_push(ops.drop_first(), op);
        assert(sum_sizes(ops.push(op)) == ops.push(op)[0].size + sum_sizes(
            ops.push(op).drop_first(),
        ));
        assert(sum_sizes(ops) == ops[0].size + sum_sizes(ops.drop_first()));
    }
}

/// Prepending one operand adds its size to the total.
pub proof fn lemma_sum_sizes_cons(op: Operand, ops: Seq<Operand>)
    ensures
        sum_sizes(seq![op] + ops) == op.size + sum_sizes(ops),
{
    assert((seq![op] + ops).drop_first() =~= ops);
    assert((seq![op] + ops)[0] == op);
}

/// Structural facts about a successful operand-list decode: one operand per
/// role, each well-formed, and together they tile `[a, a + sum_sizes)`
/// inside memory.
pub proof fn lemma_operands_props(m: Seq<u8>, dtype: Data, roles: Seq<OpType>, a: int)
    ensures
        spec_decode_operands(m, dtype, roles, a) matches Ok(ops) ==> {
            &&& ops.len() == roles.len()
            &&& (forall|i: int| 0 <= i < ops.len() ==> (#[trigger] ops[i]).wf())
            &&& (forall|i: int| 0 <= i < ops.len() ==> 1 <= (#[trigger] ops[i]).size <= 6)
            &&& 0 <= sum_sizes(ops) <= 6 * roles.len()
            &&& a + sum_sizes(ops) <= m.len() || roles.len() == 0
        },
    decreases roles.len(),
{
    if roles.len() > 0 {
        lemma_operand_props(m, dtype, roles[0], a);
        match spec_decode_operand(m, dtype, roles[0], a) {
            Ok(op) => {
                lemma_operands_props(m, dtype, roles.drop_first(), a + op.size);
                match spec_decode_operands(m, dtype, roles.drop_first(), a + op.size) {
                    Ok(rest) => {
                        lemma_sum_sizes_cons(op, rest);
                        assert forall|i: int|
                            0 <= i < (seq![op] + rest).len() implies (#[trigger] (seq![op]
                            + rest)[i]).wf() && 1 <= (seq![op] + rest)[i].size <= 6 by {
                            if i == 0 {
                                assert((seq![op] + rest)[0] == op);
                            } else {
                                assert((seq![op] + rest)[i] == rest[i - 1]);
                            }
                        }
                    },
                    Err(_) => {},
                }
            },
            Err(_) => {},
        }
    }
}

/// Where operand `i` begins in the stream: after the opcode prefix and all
/// earlier operands.
pub open spec fn operand_offset(a: int, ops: Seq<Operand>, i: int) -> int {
    a + sum_sizes(ops.take(i))
}

/// Exactly the operand that follows an expanded-type prefix byte carries an
/// expanded type, and it carries the width that prefix selects; every other
/// operand, and every literal-role operand, carries none.
pub proof fn lemma_operands_expansion(m: Seq<u8>, dtype: Data, roles: Seq<OpType>, a: int)
    ensures
        spec_decode_operands(m, dtype, roles, a) matches Ok(ops) ==> forall|i: int|
            0 <= i < ops.len() ==> (#[trigger] ops[i]).expanded_type == (match roles[i] {
                OpType::Lit => Option::<Data>::None,
                _ => prefix_expansion(m, operand_offset(a, ops, i)),
            }),
    decreases roles.len(),
{
    if roles.len() > 0 {
        lemma_operand_props(m, dtype, roles[0], a);
        match spec_decode_operand(m, dtype, roles[0], a) {
            Ok(op) => {
                lemma_operands_expansion(m, dtype, roles.drop_first(), a + op.size);
                lemma_operands_props(m, dtype, roles.drop_first(), a + op.size);
                match spec_decode_operands(m, dtype, roles.drop_first(), a + op.size) {
                    Ok(rest) => {
                        let ops = seq![op] + rest;
                        assert forall|i: int| 0 <= i < ops.len() implies (#[trigger] ops[i])
                            .expanded_type == (match roles[i] {
                            OpType::Lit => Option::<Data>::None,
                            _ => prefix_expansion(m, operand_offset(a, ops, i)),
                        }) by {
                            if i == 0 {
                                assert(ops[0] == op);
                                assert(ops.take(0) =~= Seq::empty());
                                assert(operand_offset(a, ops, 0) == a);
                            } else {
                                assert(ops[i] == rest[i - 1]);
                                assert(roles[i] == roles.drop_first()[i - 1]);
                                assert(ops.take(i) =~= seq![op] + rest.take(i - 1));
                                lemma_sum_sizes_cons(op, rest.take(i - 1));
                                assert(operand_offset(a, ops, i) == operand_offset(
                                    a + op.size,
                                    rest,
                                    i - 1,
                                ));
                            }
                        }
                    },
                    Err(_) => {},
                }
            },
            Err(_) => {},
        }
    }
}

/// Law of expanded-type inheritance for a whole instruction: in a decoded
/// instruction, an operand carries an expanded type exactly when the byte
/// at that operand's own position in the stream is a defined expanded-type
/// prefix, and then it carries the width that prefix selects. In
/// particular, each prefix affects only the operand that immediately
/// follows it, and literal-role operands never carry one.
pub proof fn lemma_expanded_follows_prefix(m: Seq<u8>, pc: u32)
    requires
        spec_decode_instruction(m, pc) matches Ok(si),
    ensures
        spec_decode_instruction(m, pc) matches Ok(si) ==> forall|i: int|
            0 <= i < si.operands.len() ==> (#[trigger] si.operands[i]).expanded_type == (
            match si.roles[i] {
                OpType::Lit => Option::<Data>::None,
                _ => prefix_expansion(m, operand_offset(pc + 1, si.operands, i)),
            }),
{
    match spec_read_byte(m, pc as int) {
        Ok(b1) => {
            if b1 != 0x30 {
                lemma_operands_expansion(m, op_info(b1).dtype, op_info(b1).roles, pc + 1);
            }
        },
        Err(_) => {},
    }
}

/// Whether an addressing mode names a register: the register modes, the
/// displacement modes and the short-offset modes do; literal, immediate
/// and absolute operands do not.
pub open spec fn mode_names_register(mode: AddrMode) -> bool {
    match mode {
        AddrMode::Register => true,
        AddrMode::RegisterDeferred => true,
        AddrMode::ByteDisplacement => true,
        AddrMode::ByteDisplacementDeferred => true,
        AddrMode::HalfwordDisplacement => true,
        AddrMode::HalfwordDisplacementDeferred => true,
        AddrMode::WordDisplacement => true,
        AddrMode::WordDisplacementDeferred => true,
        AddrMode::FPShortOffset => true,
        AddrMode::APShortOffset => true,
        _ => false,
    }
}

/// A decoded operand carries a register index exactly when its addressing
/// mode names one.
pub proof fn lemma_register_presence(
    m: Seq<u8>,
    dtype: Data,
    etype: Option<Data>,
    a: int,
    recur: bool,
)
    ensures
        spec_decode_descriptor(m, dtype, etype, a, recur) matches Ok(op) ==> (op.register is Some
            <==> mode_names_register(op.mode)),
    decreases (if recur {
        0int
    } else {
        1int
    }),
{
    if 0 <= a < m.len() {
        let db = m[a];
        if (db >> 4) == 14 && !recur {
            match expand_sel(db & 0xf) {
                Some(t) => {
                    lemma_register_presence(m, dtype, Some(t), a + 1, true);
                },
                None => {},
            }
        }
    }
}

/// Illegal descriptor cells: a descriptor byte whose register nibble is 11
/// and whose mode nibble is 5 or lies in 8 through 13 always decodes to
/// `IllegalOpcode`, whatever bytes follow it in the stream and whatever
/// width or inherited expanded type is in force.
pub proof fn lemma_illegal_descriptors(
    m: Seq<u8>,
    dtype: Data,
    etype: Option<Data>,
    a: int,
    recur: bool,
)
    requires
        0 <= a < m.len(),
        m[a] & 0xf == 11,
        m[a] >> 4 == 5 || (8 <= m[a] >> 4 <= 13),
    ensures
        spec_decode_descriptor(m, dtype, etype, a, recur) == Err::<Operand, CpuError>(illegal()),
{
    let db = m[a];
    assert(db & 0xf == 11 ==> db & 0xf != 15) by (bit_vector);
}

/// Length law for a whole instruction: the total byte count equals the
/// opcode prefix length (two bytes for a 0x30-prefixed instruction, one
/// otherwise) plus the sum of the operand sizes.
pub proof fn lemma_instruction_length(m: Seq<u8>, pc: u32)
    ensures
        spec_decode_instruction(m, pc) matches Ok(si) ==> si.bytes == (if si.halfword {
            2int
        } else {
            1int
        }) + sum_sizes(si.operands),
{
}

} // verus!
