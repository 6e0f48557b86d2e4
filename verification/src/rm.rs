//! The addressing-mode operand: register direct, direct memory, or one of
//! the indexed memory forms, as selected by the mode and r/m fields of the
//! addressing-mode byte.

use vstd::prelude::*;

use crate::stream::{ByteStream, StreamError};
use crate::word::{sign_extend8_u16, spec_sign_extend8_u16, spec_word_le};

verus! {

/// A decoded operand: a register reference or one of the memory
/// addressing forms.
#[derive(Clone, Copy, Debug, PartialEq, Eq, Structural)]
pub enum Rm {
    /// Register direct. `w` selects byte or word width; `reg` is the
    /// 3-bit register field.
    Reg { w: usize, reg: usize },
    /// Absolute 16-bit address (mode `00` with r/m field `110`).
    DirectMemory(u16),
    /// One or two base/index registers plus an 8- or 16-bit displacement.
    MemoryWithDisplacment { rm: usize, displacment: u16 },
    /// One or two base/index registers, no displacement.
    MemoryNoDisplacment(usize),
}

/// The register slot holding the first (base) register of the fixed
/// base/index combination selected by an r/m field.
pub open spec fn spec_base_register(rm: int) -> int {
    if rm == 0 || rm == 1 || rm == 7 {
        3
    } else if rm == 2 || rm == 3 || rm == 6 {
        5
    } else if rm == 4 {
        6
    } else {
        7
    }
}

/// The register slot holding the second (index) register of the
/// combination, where the combination has one.
pub open spec fn spec_index_register(rm: int) -> Option<int> {
    if rm == 0 || rm == 2 {
        Some(6int)
    } else if rm == 1 || rm == 3 {
        Some(7int)
    } else {
        None
    }
}

/// Estimated effective-address cycles for the no-displacement memory
/// forms, keyed by the r/m field.
pub open spec fn spec_no_displacement_cycles(rm: int) -> i16 {
    if rm == 0 || rm == 1 {
        7
    } else if rm == 2 || rm == 3 {
        8
    } else {
        5
    }
}

/// Estimated effective-address cycles for the with-displacement memory
/// forms, keyed by the r/m field.
pub open spec fn spec_displacement_cycles(rm: int) -> i16 {
    if rm == 0 || rm == 3 {
        11
    } else if rm == 1 || rm == 2 {
        12
    } else {
        9
    }
}

/// The signed effective address of a no-displacement memory operand: the
/// base register plus the index register where the combination has one,
/// with 16-bit wrap-around.
pub open spec fn spec_memory_index(rm: int, regs: Seq<i16>) -> i16 {
    let base = regs[spec_base_register(rm)];
    match spec_index_register(rm) {
        Some(ix) => vstd::wrapping::i16_specs::wrapping_add(base, regs[ix]),
        None => base,
    }
}

/// How many displacement bytes follow the addressing-mode byte for a
/// given mode and r/m field.
pub open spec fn spec_rm_extra_len(mod_value: u8, rm: usize) -> int {
    if mod_value == 0 {
        if rm == 6 {
            2
        } else {
            0
        }
    } else if mod_value == 1 {
        1
    } else if mod_value == 2 {
        2
    } else {
        0
    }
}

/// The operand a mode and r/m field denote, reading displacement bytes
/// from `bytes` at `pos`. Mode `11` (and anything above) is register
/// direct; mode `00` is memory without displacement, except that r/m
/// field `110` selects a direct 16-bit address; mode `01` reads one
/// sign-extended displacement byte; mode `10` reads a little-endian
/// displacement word.
pub open spec fn spec_rm_operand(
    bytes: Seq<u8>,
    pos: int,
    mod_value: u8,
    w: usize,
    rm: usize,
) -> Rm {
    if mod_value == 0 {
        if rm == 6 {
            Rm::DirectMemory(spec_word_le(bytes[pos], bytes[pos + 1]))
        } else {
            Rm::MemoryNoDisplacment(rm)
        }
    } else if mod_value == 1 {
        Rm::MemoryWithDisplacment { rm, displacment: spec_sign_extend8_u16(bytes[pos]) }
    } else if mod_value == 2 {
        Rm::MemoryWithDisplacment { rm, displacment: spec_word_le(bytes[pos], bytes[pos + 1]) }
    } else {
        Rm::Reg { w, reg: rm }
    }
}

impl Rm {
    /// Validity: the register and r/m fields are three bits, the width
    /// field one bit.
    pub open spec fn wf(self) -> bool {
        match self {
            Rm::Reg { w, reg } => w <= 1 && reg < 8,
            Rm::DirectMemory(_) => true,
            Rm::MemoryWithDisplacment { rm, .. } => rm < 8,
            Rm::MemoryNoDisplacment(rm) => rm < 8,
        }
    }

    /// Decode an operand from the mode, width and r/m fields, consuming
    /// the displacement bytes the mode calls for. Mode `11` consumes no
    /// extra bytes and yields the register operand named by the r/m
    /// field. Fails exactly when the stream holds fewer displacement
    /// bytes than the mode requires, and then consumes nothing.
    pub fn new(stream: &mut ByteStream, mod_value: u8, w: usize, rm: usize) -> (r: Result<
        Rm,
        StreamError,
    >)
        requires
            w <= 1,
            rm < 8,
        ensures
            final(stream).bytes() == old(stream).bytes(),
            spec_rm_extra_len(mod_value, rm) == 0 || old(stream).position() + spec_rm_extra_len(
                mod_value,
                rm,
            ) <= old(stream).bytes().len() ==> r == Ok::<Rm, StreamError>(
                spec_rm_operand(old(stream).bytes(), old(stream).position(), mod_value, w, rm),
            )
                && final(stream).position()
                    == old(stream).position() + spec_rm_extra_len(mod_value, rm),
            !(spec_rm_extra_len(mod_value, rm) == 0 || old(stream).position()
                + spec_rm_extra_len(mod_value, rm) <= old(stream).bytes().len()) ==> r == Err::<
                Rm,
                StreamError,
            >(StreamError::UnexpectedEndOfStream)
                && final(stream).position() == old(stream).position(),
            r is Ok ==> r->Ok_0.wf(),
            mod_value == 3 ==> r == Ok::<Rm, StreamError>(Rm::Reg { w, reg: rm })
                && final(stream).position() == old(stream).position(),
    {
        if mod_value == 0 {
            if rm == 6 {
                match stream.read_word() {
                    Ok(address) => Ok(Rm::DirectMemory(address)),
                    Err(e) => Err(e),
                }
            } else {
                Ok(Rm::MemoryNoDisplacment(rm))
            }
        } else if mod_value == 1 {
            match stream.read_byte() {
                Ok(b) => Ok(Rm::MemoryWithDisplacment { rm, displacment: sign_extend8_u16(b) }),
                Err(e) => Err(e),
            }
        } else if mod_value == 2 {
            match stream.read_word() {
                Ok(displacment) => Ok(Rm::MemoryWithDisplacment { rm, displacment }),
                Err(e) => Err(e),
            }
        } else {
            Ok(Rm::Reg { w, reg: rm })
        }
    }

    /// The signed effective address of a no-displacement memory operand:
    /// the sum, with 16-bit wrap-around, of the base/index registers of
    /// the combination the r/m field selects.
    pub fn calculate_memory_index(&self, simulation_registers: &[i16; 8]) -> (r: i16)
        requires
            self is MemoryNoDisplacment,
            self.wf(),
        ensures
            r == spec_memory_index(self->MemoryNoDisplacment_0 as int, simulation_registers@),
    {
        match self {
            Rm::MemoryNoDisplacment(rm) => {
                let index = *rm;
                let base: usize = if index == 0 || index == 1 || index == 7 {
                    3
                } else if index == 2 || index == 3 || index == 6 {
                    5
                } else if index == 4 {
                    6
                } else {
                    7
                };
                let answer = simulation_registers[base];
                if index < 4 {
                    let ix: usize = if index == 0 || index == 2 {
                        6
                    } else {
                        7
                    };
                    answer.wrapping_add(simulation_registers[ix])
                } else {
                    answer
                }
            },
            _ => vstd::pervasive::unreached(),
        }
    }

    /// The estimated effective-address cycle cost of this operand, from
    /// the fixed timing tables.
    pub fn estimate_cycles(&self) -> (r: i16)
        requires
            self.wf(),
        ensures
            r == spec_estimate_cycles(*self),
            5 <= r <= 12,
    {
        match self {
            Rm::Reg { .. } => 6,
            Rm::DirectMemory(_) => 6,
            Rm::MemoryNoDisplacment(rm) => {
                let index = *rm;
                if index == 0 || index == 1 {
                    7
                } else if index == 2 || index == 3 {
                    8
                } else {
                    5
                }
            },
            Rm::MemoryWithDisplacment { rm, .. } => {
                let index = *rm;
                if index == 0 || index == 3 {
                    11
                } else if index == 1 || index == 2 {
                    12
                } else {
                    9
                }
            },
        }
    }
}

/// The estimated effective-address cycle cost of an operand.
pub open spec fn spec_estimate_cycles(rm: Rm) -> i16 {
    match rm {
        Rm::Reg { .. } => 6,
        Rm::DirectMemory(_) => 6,
        Rm::MemoryNoDisplacment(i) => spec_no_displacement_cycles(i as int),
        Rm::MemoryWithDisplacment { rm, .. } => spec_displacement_cycles(rm as int),
    }
}

} // verus!
