//! Instruction decoding and the decode-and-simulate loop.
//!
//! The leading byte of each instruction is classified against the fixed
//! opcode bit-patterns, most specific first; the addressing-mode byte,
//! displacement and immediate that the family calls for are then
//! consumed, and in simulation mode the matching handler is applied to
//! the machine state. Each step yields one trace record. A byte that no
//! pattern matches is consumed alone and surfaced as a distinguishable
//! record rather than silently dropped.

use vstd::prelude::*;

use crate::flag::Flags;
use crate::machine::{MachineState, MachineView};
use crate::rm::{spec_rm_extra_len, spec_rm_operand, Rm};
use crate::simulator::immediate_to_rm_simulator::{
    spec_add_immediate_to_rm, spec_cmp_immediate_to_rm, spec_mov_immediate_to_rm,
    spec_sub_immediate_to_rm, AddImmediateToRMSimulator, CmpImmediateToRMSimulator,
    ImmediateToRMSimulator, MovImmediateToRMSimulator, SubImmediateToRMSimulator,
};
use crate::simulator::rm_to_rm_simulator::{
    spec_add_rm_to_rm, spec_cmp_rm_to_rm, spec_mov_rm_to_rm, spec_sub_rm_to_rm,
    AddRmToRmSimulator, CmpRmToRmSimulator, MovRmToRmSimulator, RMToRmSimulator,
    SubRmToRmSimulator,
};
use crate::simulator::{spec_apply_effect, SimEffect, SimulatorInput, SimulatorOutput};
use crate::stream::{spec_immediate, ByteStream};
use crate::word::spec_sign_extend8;

verus! {

/// The arithmetic-or-move operation an opcode family performs.
#[derive(Clone, Copy, Debug, PartialEq, Eq, Structural)]
pub enum Operation {
    Mov,
    Add,
    Sub,
    Cmp,
}

/// The twenty conditional transfer-of-control mnemonics.
#[derive(Clone, Copy, Debug, PartialEq, Eq, Structural)]
pub enum JumpKind {
    Je,
    Jl,
    Jle,
    Jb,
    Jbe,
    Jp,
    Jo,
    Js,
    Jne,
    Jnl,
    Jg,
    Jnb,
    Ja,
    Jnp,
    Jno,
    Jns,
    Loop,
    Loopz,
    Loopnz,
    Jcxz,
}

/// Fatal decoding failure. Decoding aborts; no partial instruction is
/// ever reported.
#[derive(Clone, Copy, Debug, PartialEq, Eq, Structural)]
pub enum DecodeError {
    /// The stream ended in the middle of an instruction.
    TruncatedStream,
    /// A taken branch targeted a position before the start of the
    /// stream, or beyond what a position can represent.
    SeekOutOfRange,
}

/// One decoded instruction, as the renderer needs it.
#[derive(Clone, Copy, Debug, PartialEq, Eq, Structural)]
pub enum Decoded {
    /// The move-immediate-to-register family: width and destination
    /// register are encoded in the opcode byte itself.
    MovImmediateToRegister { w: usize, reg: usize, data: i16 },
    /// The generic immediate-to-register/memory family; the secondary
    /// three-bit field of the addressing-mode byte selects the
    /// operation (0 add, 5 sub, 7 cmp; the remaining rows are
    /// placeholders that simulate as add).
    ImmediateToRm { operation_index: usize, wide_data: bool, mod_value: u8, destination: Rm, data: i16 },
    /// The dedicated move-immediate-to-register/memory family.
    MovImmediateToRm { wide_data: bool, mod_value: u8, destination: Rm, data: i16 },
    /// The register/memory-to-register/memory family.
    RmToRm { operation: Operation, destination: Rm, source: Rm },
    /// The immediate-to-accumulator family (decode only).
    ImmediateToAccumulator { operation: Operation, w: usize, data: i16 },
    /// A conditional jump with its signed 8-bit displacement.
    Jump { kind: JumpKind, displacement: i16 },
    /// A leading byte no pattern matches; it is consumed alone.
    Unknown { byte: u8 },
}

/// The trace record one decode-and-simulate step yields.
#[derive(Clone, Copy, Debug, PartialEq, Eq)]
pub struct StepRecord {
    pub decoded: Decoded,
    /// Destination value before the mutation (simulation mode).
    pub old_value: i16,
    /// Destination value after the mutation (simulation mode).
    pub new_value: i16,
    pub old_flags: Flags,
    pub new_flags: Flags,
    /// Estimated cycle cost of this instruction.
    pub cycles: i16,
    /// Cumulative cycle estimate after this instruction.
    pub clock: u64,
    /// Stream position before the instruction's first byte.
    pub old_ip: usize,
    /// Stream position after the instruction (after a taken branch, the
    /// branch target).
    pub new_ip: usize,
}

/// Move immediate to register: `1011xxxx`.
pub open spec fn is_mov_immediate_to_register(b: u8) -> bool {
    b & 0xf0 == 0xb0
}

/// Immediate to register/memory, generic form: `100000xx`.
pub open spec fn is_immediate_to_rm(b: u8) -> bool {
    b & 0xfc == 0x80
}

/// Immediate to register/memory, dedicated move form: `1100011x`.
pub open spec fn is_mov_immediate_to_rm(b: u8) -> bool {
    b & 0xfe == 0xc6
}

/// Register/memory to register/memory: one six-bit pattern per
/// operation.
pub open spec fn is_rm_to_rm(b: u8) -> bool {
    b & 0xfc == 0x88 || b & 0xfc == 0x00 || b & 0xfc == 0x28 || b & 0xfc == 0x38
}

/// Which operation a register/memory-to-register/memory opcode performs.
pub open spec fn spec_rm_to_rm_operation(b: u8) -> Operation {
    if b & 0xfc == 0x88 {
        Operation::Mov
    } else if b & 0xfc == 0x00 {
        Operation::Add
    } else if b & 0xfc == 0x28 {
        Operation::Sub
    } else {
        Operation::Cmp
    }
}

/// Immediate to accumulator: one seven-bit pattern per operation.
pub open spec fn is_immediate_to_accumulator(b: u8) -> bool {
    b & 0xfe == 0x04 || b & 0xfe == 0x2c || b & 0xfe == 0x3c
}

/// Which operation an immediate-to-accumulator opcode performs.
pub open spec fn spec_accumulator_operation(b: u8) -> Operation {
    if b & 0xfe == 0x04 {
        Operation::Add
    } else if b & 0xfe == 0x2c {
        Operation::Sub
    } else {
        Operation::Cmp
    }
}

/// The conditional-jump mnemonic an exact opcode byte selects, if any.
pub open spec fn spec_jump_kind(b: u8) -> Option<JumpKind> {
    match b {
        0x74 => Some(JumpKind::Je),
        0x7c => Some(JumpKind::Jl),
        0x7e => Some(JumpKind::Jle),
        0x72 => Some(JumpKind::Jb),
        0x76 => Some(JumpKind::Jbe),
        0x7a => Some(JumpKind::Jp),
        0x70 => Some(JumpKind::Jo),
        0x78 => Some(JumpKind::Js),
        0x75 => Some(JumpKind::Jne),
        0x7d => Some(JumpKind::Jnl),
        0x7f => Some(JumpKind::Jg),
        0x73 => Some(JumpKind::Jnb),
        0x77 => Some(JumpKind::Ja),
        0x7b => Some(JumpKind::Jnp),
        0x71 => Some(JumpKind::Jno),
        0x79 => Some(JumpKind::Jns),
        0xe2 => Some(JumpKind::Loop),
        0xe1 => Some(JumpKind::Loopz),
        0xe0 => Some(JumpKind::Loopnz),
        0xe3 => Some(JumpKind::Jcxz),
        _ => None,
    }
}

/// Conditional transfer of control: the twenty exact opcode bytes,
/// `0111xxxx` and `111000xx`.
pub open spec fn is_conditional_jump(b: u8) -> bool {
    b & 0xf0 == 0x70 || b & 0xfc == 0xe0
}

/// The opcode family a leading byte belongs to.
#[derive(Clone, Copy, Debug, PartialEq, Eq, Structural)]
pub enum OpcodeClass {
    MovImmediateToRegister,
    ImmediateToRm,
    MovImmediateToRm,
    RmToRm(Operation),
    ImmediateToAccumulator(Operation),
    Jump(JumpKind),
    Unknown,
}

/// Classification of a leading byte, most specific pattern first. The
/// families are in fact mutually exclusive (`lemma_opcode_families_exclusive`),
/// so the order never decides.
pub open spec fn spec_classify(b: u8) -> OpcodeClass {
    if is_mov_immediate_to_register(b) {
        OpcodeClass::MovImmediateToRegister
    } else if is_immediate_to_rm(b) {
        OpcodeClass::ImmediateToRm
    } else if is_mov_immediate_to_rm(b) {
        OpcodeClass::MovImmediateToRm
    } else if is_rm_to_rm(b) {
        OpcodeClass::RmToRm(spec_rm_to_rm_operation(b))
    } else if is_immediate_to_accumulator(b) {
        OpcodeClass::ImmediateToAccumulator(spec_accumulator_operation(b))
    } else {
        match spec_jump_kind(b) {
            Some(kind) => OpcodeClass::Jump(kind),
            None => OpcodeClass::Unknown,
        }
    }
}

/// No leading byte matches two opcode families: the fixed bit-patterns,
/// taken at their masks, are mutually exclusive, and the dispatch order
/// is therefore immaterial.
pub proof fn lemma_opcode_families_exclusive(b: u8)
    by (bit_vector)
    ensures
        !(is_mov_immediate_to_register(b) && is_immediate_to_rm(b)),
        !(is_mov_immediate_to_register(b) && is_mov_immediate_to_rm(b)),
        !(is_mov_immediate_to_register(b) && is_rm_to_rm(b)),
        !(is_mov_immediate_to_register(b) && is_immediate_to_accumulator(b)),
        !(is_mov_immediate_to_register(b) && is_conditional_jump(b)),
        !(is_immediate_to_rm(b) && is_mov_immediate_to_rm(b)),
        !(is_immediate_to_rm(b) && is_rm_to_rm(b)),
        !(is_immediate_to_rm(b) && is_immediate_to_accumulator(b)),
        !(is_immediate_to_rm(b) && is_conditional_jump(b)),
        !(is_mov_immediate_to_rm(b) && is_rm_to_rm(b)),
        !(is_mov_immediate_to_rm(b) && is_immediate_to_accumulator(b)),
        !(is_mov_immediate_to_rm(b) && is_conditional_jump(b)),
        !(is_rm_to_rm(b) && is_immediate_to_accumulator(b)),
        !(is_rm_to_rm(b) && is_conditional_jump(b)),
        !(is_immediate_to_accumulator(b) && is_conditional_jump(b)),
{
}

/// The twenty-entry jump table covers exactly the bytes of the two
/// conditional-jump bit-patterns.
pub proof fn lemma_jump_table_matches_patterns(b: u8)
    ensures
        spec_jump_kind(b) is Some <==> is_conditional_jump(b),
{
    assert((b & 0xf0 == 0x70) <==> (0x70 <= b <= 0x7f)) by (bit_vector);
    assert((b & 0xfc == 0xe0) <==> (0xe0 <= b <= 0xe3)) by (bit_vector);
}

/// Classify a leading byte against the opcode patterns.
pub fn classify(b: u8) -> (c: OpcodeClass)
    ensures
        c == spec_classify(b),
{
    if b & 0xf0 == 0xb0 {
        OpcodeClass::MovImmediateToRegister
    } else if b & 0xfc == 0x80 {
        OpcodeClass::ImmediateToRm
    } else if b & 0xfe == 0xc6 {
        OpcodeClass::MovImmediateToRm
    } else if b & 0xfc == 0x88 {
        OpcodeClass::RmToRm(Operation::Mov)
    } else if b & 0xfc == 0x00 {
        OpcodeClass::RmToRm(Operation::Add)
    } else if b & 0xfc == 0x28 {
        OpcodeClass::RmToRm(Operation::Sub)
    } else if b & 0xfc == 0x38 {
        OpcodeClass::RmToRm(Operation::Cmp)
    } else if b & 0xfe == 0x04 {
        OpcodeClass::ImmediateToAccumulator(Operation::Add)
    } else if b & 0xfe == 0x2c {
        OpcodeClass::ImmediateToAccumulator(Operation::Sub)
    } else if b & 0xfe == 0x3c {
        OpcodeClass::ImmediateToAccumulator(Operation::Cmp)
    } else {
        match jump_kind_lookup(b) {
            Some(kind) => OpcodeClass::Jump(kind),
            None => OpcodeClass::Unknown,
        }
    }
}

/// Look a byte up in the conditional-jump table.
pub fn jump_kind_lookup(b: u8) -> (r: Option<JumpKind>)
    ensures
        r == spec_jump_kind(b),
{
    match b {
        0x74 => Some(JumpKind::Je),
        0x7c => Some(JumpKind::Jl),
        0x7e => Some(JumpKind::Jle),
        0x72 => Some(JumpKind::Jb),
        0x76 => Some(JumpKind::Jbe),
        0x7a => Some(JumpKind::Jp),
        0x70 => Some(JumpKind::Jo),
        0x78 => Some(JumpKind::Js),
        0x75 => Some(JumpKind::Jne),
        0x7d => Some(JumpKind::Jnl),
        0x7f => Some(JumpKind::Jg),
        0x73 => Some(JumpKind::Jnb),
        0x77 => Some(JumpKind::Ja),
        0x7b => Some(JumpKind::Jnp),
        0x71 => Some(JumpKind::Jno),
        0x79 => Some(JumpKind::Jns),
        0xe2 => Some(JumpKind::Loop),
        0xe1 => Some(JumpKind::Loopz),
        0xe0 => Some(JumpKind::Loopnz),
        0xe3 => Some(JumpKind::Jcxz),
        _ => None,
    }
}

/// The outcome of one decode-and-simulate step: the result handed to the
/// caller, the stream position afterwards, and the machine afterwards.
pub struct SpecStep {
    pub result: Result<StepRecord, DecodeError>,
    pub pos: int,
    pub state: MachineView,
}

/// An all-zero handler report.
pub open spec fn spec_zero_output() -> SimulatorOutput {
    SimulatorOutput { old_value: 0, new_value: 0, number_of_cycles: 0 }
}

/// Assemble the record of a successful step. `pos0` is the position of
/// the opcode byte, `new_pos` the position after the instruction, `mid`
/// the machine after the handler (its cycle counter still untouched); in
/// simulation mode the cycle cost is then added to the counter.
pub open spec fn spec_finish_step(
    pos0: int,
    new_pos: int,
    pre: MachineView,
    mid: MachineView,
    simulate: bool,
    decoded: Decoded,
    output: SimulatorOutput,
) -> SpecStep {
    let clock = if simulate {
        (mid.clock + output.number_of_cycles) as u64
    } else {
        mid.clock
    };
    let post = MachineView { clock, ..mid };
    SpecStep {
        result: Ok(
            StepRecord {
                decoded,
                old_value: output.old_value,
                new_value: output.new_value,
                old_flags: pre.flags,
                new_flags: post.flags,
                cycles: output.number_of_cycles,
                clock,
                old_ip: pos0 as usize,
                new_ip: new_pos as usize,
            },
        ),
        pos: new_pos,
        state: post,
    }
}

/// A step that fails fatally at `pos` with the machine untouched.
pub open spec fn spec_fail_step(error: DecodeError, pos: int, pre: MachineView) -> SpecStep {
    SpecStep { result: Err(error), pos, state: pre }
}

/// One step of the move-immediate-to-register family: width and register
/// come from the opcode byte, the immediate of matching width follows.
/// In simulation mode a word-width move stores the immediate into the
/// named register slot and leaves every other slot, the memory and the
/// flags unchanged; the byte-width form is decode-only. The cycle cost
/// is 4.
pub open spec fn spec_step_mov_immediate_to_register(
    b: u8,
    bytes: Seq<u8>,
    pos0: int,
    pre: MachineView,
    simulate: bool,
) -> SpecStep {
    let p1 = pos0 + 1;
    let w = ((b & 0x08) >> 3) as usize;
    let reg = (b & 0x07) as usize;
    let one_byte = w == 0;
    let needed: int = if one_byte {
        1
    } else {
        2
    };
    if p1 + needed <= bytes.len() {
        let data = spec_immediate(bytes, p1, one_byte);
        let decoded = Decoded::MovImmediateToRegister { w, reg, data };
        if simulate && w == 1 {
            let mid = MachineView { registers: pre.registers.update(reg as int, data), ..pre };
            let output = SimulatorOutput {
                old_value: pre.registers[reg as int],
                new_value: data,
                number_of_cycles: 4,
            };
            spec_finish_step(pos0, p1 + needed, pre, mid, simulate, decoded, output)
        } else {
            let output = SimulatorOutput { old_value: 0, new_value: 0, number_of_cycles: 4 };
            spec_finish_step(pos0, p1 + needed, pre, pre, simulate, decoded, output)
        }
    } else {
        spec_fail_step(DecodeError::TruncatedStream, p1, pre)
    }
}

/// The handler effect the generic immediate family applies: row 5 of the
/// secondary field subtracts, row 7 compares, every other row adds.
pub open spec fn spec_immediate_to_rm_effect(
    operation_index: usize,
    pre: MachineView,
    dst: Rm,
    imm: i16,
) -> SimEffect {
    if operation_index == 5 {
        spec_sub_immediate_to_rm(pre, dst, imm)
    } else if operation_index == 7 {
        spec_cmp_immediate_to_rm(pre, dst, imm)
    } else {
        spec_add_immediate_to_rm(pre, dst, imm)
    }
}

/// One step of the generic immediate-to-register/memory family: the
/// addressing-mode byte follows the opcode, then the displacement its
/// mode calls for, then the immediate — one byte unless the opcode's low
/// two bits are `01`. In simulation mode the row of the secondary field
/// selects the handler.
pub open spec fn spec_step_immediate_to_rm(
    b: u8,
    bytes: Seq<u8>,
    pos0: int,
    pre: MachineView,
    simulate: bool,
) -> SpecStep {
    let p1 = pos0 + 1;
    if p1 + 1 <= bytes.len() {
        let next = bytes[p1];
        let mod_value = (next & 0xc0) >> 6;
        let rm_field = (next & 0x07) as usize;
        let w = (b & 0x01) as usize;
        let one_byte = b & 0x03 != 0x01;
        let dlen = spec_rm_extra_len(mod_value, rm_field);
        let p2 = p1 + 1;
        if dlen == 0 || p2 + dlen <= bytes.len() {
            let destination = spec_rm_operand(bytes, p2, mod_value, w, rm_field);
            let p3 = p2 + dlen;
            let ilen: int = if one_byte {
                1
            } else {
                2
            };
            if p3 + ilen <= bytes.len() {
                let data = spec_immediate(bytes, p3, one_byte);
                let operation_index = ((next & 0x38) >> 3) as usize;
                let decoded = Decoded::ImmediateToRm {
                    operation_index,
                    wide_data: !one_byte,
                    mod_value,
                    destination,
                    data,
                };
                if simulate {
                    let e = spec_immediate_to_rm_effect(operation_index, pre, destination, data);
                    spec_finish_step(
                        pos0,
                        p3 + ilen,
                        pre,
                        spec_apply_effect(pre, e),
                        simulate,
                        decoded,
                        e.output,
                    )
                } else {
                    spec_finish_step(pos0, p3 + ilen, pre, pre, simulate, decoded, spec_zero_output())
                }
            } else {
                spec_fail_step(DecodeError::TruncatedStream, p3, pre)
            }
        } else {
            spec_fail_step(DecodeError::TruncatedStream, p2, pre)
        }
    } else {
        spec_fail_step(DecodeError::TruncatedStream, p1, pre)
    }
}

/// One step of the dedicated move-immediate-to-register/memory family:
/// like the generic family, but the operation is always move and the
/// immediate width follows the opcode's width bit.
pub open spec fn spec_step_mov_immediate_to_rm(
    b: u8,
    bytes: Seq<u8>,
    pos0: int,
    pre: MachineView,
    simulate: bool,
) -> SpecStep {
    let p1 = pos0 + 1;
    if p1 + 1 <= bytes.len() {
        let next = bytes[p1];
        let mod_value = (next & 0xc0) >> 6;
        let rm_field = (next & 0x07) as usize;
        let w = (b & 0x01) as usize;
        let one_byte = w != 1;
        let dlen = spec_rm_extra_len(mod_value, rm_field);
        let p2 = p1 + 1;
        if dlen == 0 || p2 + dlen <= bytes.len() {
            let destination = spec_rm_operand(bytes, p2, mod_value, w, rm_field);
            let p3 = p2 + dlen;
            let ilen: int = if one_byte {
                1
            } else {
                2
            };
            if p3 + ilen <= bytes.len() {
                let data = spec_immediate(bytes, p3, one_byte);
                let decoded = Decoded::MovImmediateToRm {
                    wide_data: !one_byte,
                    mod_value,
                    destination,
                    data,
                };
                if simulate {
                    let e = spec_mov_immediate_to_rm(pre, destination, data);
                    spec_finish_step(
                        pos0,
                        p3 + ilen,
                        pre,
                        spec_apply_effect(pre, e),
                        simulate,
                        decoded,
                        e.output,
                    )
                } else {
                    spec_finish_step(pos0, p3 + ilen, pre, pre, simulate, decoded, spec_zero_output())
                }
            } else {
                spec_fail_step(DecodeError::TruncatedStream, p3, pre)
            }
        } else {
            spec_fail_step(DecodeError::TruncatedStream, p2, pre)
        }
    } else {
        spec_fail_step(DecodeError::TruncatedStream, p1, pre)
    }
}

/// The handler effect a register/memory-to-register/memory opcode
/// applies.
pub open spec fn spec_rm_to_rm_effect(
    operation: Operation,
    pre: MachineView,
    dst: Rm,
    src: Rm,
) -> SimEffect {
    match operation {
        Operation::Mov => spec_mov_rm_to_rm(pre, dst, src),
        Operation::Add => spec_add_rm_to_rm(pre, dst, src),
        Operation::Sub => spec_sub_rm_to_rm(pre, dst, src),
        Operation::Cmp => spec_cmp_rm_to_rm(pre, dst, src),
    }
}

/// One step of the register/memory-to-register/memory family: the
/// addressing-mode byte carries the second register and the memory
/// operand; the opcode's direction bit says which side is the
/// destination.
pub open spec fn spec_step_rm_to_rm(
    b: u8,
    bytes: Seq<u8>,
    pos0: int,
    pre: MachineView,
    simulate: bool,
) -> SpecStep {
    let p1 = pos0 + 1;
    if p1 + 1 <= bytes.len() {
        let next = bytes[p1];
        let mod_value = (next & 0xc0) >> 6;
        let rm_field = (next & 0x07) as usize;
        let w = (b & 0x01) as usize;
        let d = (b & 0x02) >> 1;
        let reg_operand = Rm::Reg { w, reg: ((next & 0x38) >> 3) as usize };
        let dlen = spec_rm_extra_len(mod_value, rm_field);
        let p2 = p1 + 1;
        if dlen == 0 || p2 + dlen <= bytes.len() {
            let rm_operand = spec_rm_operand(bytes, p2, mod_value, w, rm_field);
            let source = if d == 0 {
                reg_operand
            } else {
                rm_operand
            };
            let destination = if d == 0 {
                rm_operand
            } else {
                reg_operand
            };
            let operation = spec_rm_to_rm_operation(b);
            let decoded = Decoded::RmToRm { operation, destination, source };
            if simulate {
                let e = spec_rm_to_rm_effect(operation, pre, destination, source);
                spec_finish_step(
                    pos0,
                    p2 + dlen,
                    pre,
                    spec_apply_effect(pre, e),
                    simulate,
                    decoded,
                    e.output,
                )
            } else {
                spec_finish_step(pos0, p2 + dlen, pre, pre, simulate, decoded, spec_zero_output())
            }
        } else {
            spec_fail_step(DecodeError::TruncatedStream, p2, pre)
        }
    } else {
        spec_fail_step(DecodeError::TruncatedStream, p1, pre)
    }
}

/// One step of the immediate-to-accumulator family: the immediate of the
/// width the opcode names follows directly. The family is decode-only:
/// the machine is never changed.
pub open spec fn spec_step_immediate_to_accumulator(
    b: u8,
    bytes: Seq<u8>,
    pos0: int,
    pre: MachineView,
    simulate: bool,
) -> SpecStep {
    let p1 = pos0 + 1;
    let w = (b & 0x01) as usize;
    let one_byte = w == 0;
    let needed: int = if one_byte {
        1
    } else {
        2
    };
    if p1 + needed <= bytes.len() {
        let data = spec_immediate(bytes, p1, one_byte);
        let decoded = Decoded::ImmediateToAccumulator {
            operation: spec_accumulator_operation(b),
            w,
            data,
        };
        spec_finish_step(pos0, p1 + needed, pre, pre, simulate, decoded, spec_zero_output())
    } else {
        spec_fail_step(DecodeError::TruncatedStream, p1, pre)
    }
}

/// One step of the conditional-jump family: one signed displacement byte
/// follows. Only `jne` is simulated: with the zero flag clear it moves
/// the stream position by the displacement, relative to the position
/// after the instruction; a target before the start of the stream is a
/// fatal error. Every other mnemonic of the family, and `jne` with the
/// zero flag set, is decode-only. The machine itself never changes.
pub open spec fn spec_step_jump(
    b: u8,
    bytes: Seq<u8>,
    pos0: int,
    pre: MachineView,
    simulate: bool,
    kind: JumpKind,
) -> SpecStep {
    let p1 = pos0 + 1;
    if p1 + 1 <= bytes.len() {
        let data = spec_sign_extend8(bytes[p1]);
        let decoded = Decoded::Jump { kind, displacement: data };
        let p2 = p1 + 1;
        if simulate && kind == JumpKind::Jne && !pre.flags.zf {
            if 0 <= p2 + data <= usize::MAX {
                spec_finish_step(pos0, p2 + data, pre, pre, simulate, decoded, spec_zero_output())
            } else {
                spec_fail_step(DecodeError::SeekOutOfRange, p2, pre)
            }
        } else {
            spec_finish_step(pos0, p2, pre, pre, simulate, decoded, spec_zero_output())
        }
    } else {
        spec_fail_step(DecodeError::TruncatedStream, p1, pre)
    }
}

/// One step on a leading byte no pattern matches: the byte is consumed
/// alone, nothing else happens, and the record names the byte.
pub open spec fn spec_step_unknown(
    b: u8,
    pos0: int,
    pre: MachineView,
    simulate: bool,
) -> SpecStep {
    spec_finish_step(
        pos0,
        pos0 + 1,
        pre,
        pre,
        simulate,
        Decoded::Unknown { byte: b },
        spec_zero_output(),
    )
}

/// The full effect of one decode-and-simulate step on a stream whose
/// next byte is at `pos0`.
pub open spec fn spec_step(
    bytes: Seq<u8>,
    pos0: int,
    pre: MachineView,
    simulate: bool,
) -> SpecStep {
    let b = bytes[pos0];
    match spec_classify(b) {
        OpcodeClass::MovImmediateToRegister => spec_step_mov_immediate_to_register(
            b,
            bytes,
            pos0,
            pre,
            simulate,
        ),
        OpcodeClass::ImmediateToRm => spec_step_immediate_to_rm(b, bytes, pos0, pre, simulate),
        OpcodeClass::MovImmediateToRm => spec_step_mov_immediate_to_rm(b, bytes, pos0, pre, simulate),
        OpcodeClass::RmToRm(_) => spec_step_rm_to_rm(b, bytes, pos0, pre, simulate),
        OpcodeClass::ImmediateToAccumulator(_) => spec_step_immediate_to_accumulator(
            b,
            bytes,
            pos0,
            pre,
            simulate,
        ),
        OpcodeClass::Jump(kind) => spec_step_jump(b, bytes, pos0, pre, simulate, kind),
        OpcodeClass::Unknown => spec_step_unknown(b, pos0, pre, simulate),
    }
}

/// Decode (and in simulation mode simulate) one move-immediate-to-register
/// instruction whose opcode byte `b` was just consumed.
///
/// A word-width move in simulation mode stores the immediate into
/// exactly the register slot the opcode names and leaves every other
/// slot, the memory and the flags unchanged.
fn step_mov_immediate_to_register(
    b: u8,
    stream: &mut ByteStream,
    state: &mut MachineState,
    simulate: bool,
) -> (r: Result<StepRecord, DecodeError>)
    requires
        is_mov_immediate_to_register(b),
        1 <= old(stream).position(),
        old(state).clock + 32 <= u64::MAX,
    ensures
        final(stream).bytes() == old(stream).bytes(),
        ({
            let s = spec_step_mov_immediate_to_register(
                b,
                old(stream).bytes(),
                old(stream).position() - 1,
                old(state)@,
                simulate,
            );
            &&& r == s.result
            &&& final(stream).position() == s.pos
            &&& final(state)@ == s.state
        }),
        r is Ok && simulate && b & 0x08 == 0x08 ==> ({
            let reg = (b & 0x07) as int;
            let data = spec_immediate(old(stream).bytes(), old(stream).position(), false);
            &&& final(state).registers@ == old(state).registers@.update(reg, data)
            &&& (forall|j: int|
                0 <= j < 8 && j != reg ==> final(state).registers@[j] == old(
                    state,
                ).registers@[j])
            &&& final(state).memory@ == old(state).memory@
            &&& final(state).flags == old(state).flags
        }),
{
    let old_ip = stream.stream_position() - 1;
    let old_flags = state.flags;
    let w: u8 = (b & 0x08) >> 3;
    let reg = (b & 0x07) as usize;
    proof {
        assert((b & 0x07) < 8) by (bit_vector);
        assert(((b & 0x08) >> 3) == 0 || ((b & 0x08) >> 3) == 1) by (bit_vector);
        assert(((b & 0x08) >> 3 == 1) <==> (b & 0x08 == 0x08)) by (bit_vector);
    }
    let data = match stream.read_immediate(w == 0) {
        Ok(d) => d,
        Err(_) => return Err(DecodeError::TruncatedStream),
    };
    let mut output = SimulatorOutput { old_value: 0, new_value: 0, number_of_cycles: 4 };
    if simulate && w == 1 {
        output.old_value = state.registers[reg];
        state.registers[reg] = data;
        output.new_value = data;
    }
    if simulate {
        state.clock = state.clock + output.number_of_cycles as u64;
    }
    let new_ip = stream.stream_position();
    Ok(
        StepRecord {
            decoded: Decoded::MovImmediateToRegister { w: w as usize, reg, data },
            old_value: output.old_value,
            new_value: output.new_value,
            old_flags,
            new_flags: state.flags,
            cycles: output.number_of_cycles,
            clock: state.clock,
            old_ip,
            new_ip,
        },
    )
}

/// Decode (and in simulation mode simulate) one instruction of the
/// generic immediate-to-register/memory family.
fn step_immediate_to_rm(
    b: u8,
    stream: &mut ByteStream,
    state: &mut MachineState,
    simulate: bool,
) -> (r: Result<StepRecord, DecodeError>)
    requires
        is_immediate_to_rm(b),
        1 <= old(stream).position(),
        old(state).clock + 32 <= u64::MAX,
    ensures
        final(stream).bytes() == old(stream).bytes(),
        ({
            let s = spec_step_immediate_to_rm(
                b,
                old(stream).bytes(),
                old(stream).position() - 1,
                old(state)@,
                simulate,
            );
            &&& r == s.result
            &&& final(stream).position() == s.pos
            &&& final(state)@ == s.state
        }),
{
    let old_ip = stream.stream_position() - 1;
    let old_flags = state.flags;
    let next = match stream.read_byte() {
        Ok(n) => n,
        Err(_) => return Err(DecodeError::TruncatedStream),
    };
    let mod_value = (next & 0xc0) >> 6;
    let rm_field = (next & 0x07) as usize;
    let w = (b & 0x01) as usize;
    let one_byte = b & 0x03 != 0x01;
    proof {
        assert((next & 0x07) < 8) by (bit_vector);
        assert((b & 0x01) <= 1) by (bit_vector);
    }
    let destination = match Rm::new(stream, mod_value, w, rm_field) {
        Ok(rm) => rm,
        Err(_) => return Err(DecodeError::TruncatedStream),
    };
    let data = match stream.read_immediate(one_byte) {
        Ok(d) => d,
        Err(_) => return Err(DecodeError::TruncatedStream),
    };
    let operation_index = ((next & 0x38) >> 3) as usize;
    let input = SimulatorInput { source: None, destination, immediate_value: Some(data) };
    let output = if simulate {
        if operation_index == 5 {
            SubImmediateToRMSimulator.simulate(state, input)
        } else if operation_index == 7 {
            CmpImmediateToRMSimulator.simulate(state, input)
        } else {
            AddImmediateToRMSimulator.simulate(state, input)
        }
    } else {
        SimulatorOutput::default()
    };
    if simulate {
        state.clock = state.clock + output.number_of_cycles as u64;
    }
    let new_ip = stream.stream_position();
    Ok(
        StepRecord {
            decoded: Decoded::ImmediateToRm {
                operation_index,
                wide_data: !one_byte,
                mod_value,
                destination,
                data,
            },
            old_value: output.old_value,
            new_value: output.new_value,
            old_flags,
            new_flags: state.flags,
            cycles: output.number_of_cycles,
            clock: state.clock,
            old_ip,
            new_ip,
        },
    )
}

/// Decode (and in simulation mode simulate) one instruction of the
/// dedicated move-immediate-to-register/memory family.
fn step_mov_immediate_to_rm(
    b: u8,
    stream: &mut ByteStream,
    state: &mut MachineState,
    simulate: bool,
) -> (r: Result<StepRecord, DecodeError>)
    requires
        is_mov_immediate_to_rm(b),
        1 <= old(stream).position(),
        old(state).clock + 32 <= u64::MAX,
    ensures
        final(stream).bytes() == old(stream).bytes(),
        ({
            let s = spec_step_mov_immediate_to_rm(
                b,
                old(stream).bytes(),
                old(stream).position() - 1,
                old(state)@,
                simulate,
            );
            &&& r == s.result
            &&& final(stream).position() == s.pos
            &&& final(state)@ == s.state
        }),
{
    let old_ip = stream.stream_position() - 1;
    let old_flags = state.flags;
    let next = match stream.read_byte() {
        Ok(n) => n,
        Err(_) => return Err(DecodeError::TruncatedStream),
    };
    let mod_value = (next & 0xc0) >> 6;
    let rm_field = (next & 0x07) as usize;
    let w = (b & 0x01) as usize;
    let one_byte = w != 1;
    proof {
        assert((next & 0x07) < 8) by (bit_vector);
        assert((b & 0x01) <= 1) by (bit_vector);
    }
    let destination = match Rm::new(stream, mod_value, w, rm_field) {
        Ok(rm) => rm,
        Err(_) => return Err(DecodeError::TruncatedStream),
    };
    let data = match stream.read_immediate(one_byte) {
        Ok(d) => d,
        Err(_) => return Err(DecodeError::TruncatedStream),
    };
    let input = SimulatorInput { source: None, destination, immediate_value: Some(data) };
    let output = if simulate {
        MovImmediateToRMSimulator.simulate(state, input)
    } else {
        SimulatorOutput::default()
    };
    if simulate {
        state.clock = state.clock + output.number_of_cycles as u64;
    }
    let new_ip = stream.stream_position();
    Ok(
        StepRecord {
            decoded: Decoded::MovImmediateToRm {
                wide_data: !one_byte,
                mod_value,
                destination,
                data,
            },
            old_value: output.old_value,
            new_value: output.new_value,
            old_flags,
            new_flags: state.flags,
            cycles: output.number_of_cycles,
            clock: state.clock,
            old_ip,
            new_ip,
        },
    )
}

/// Decode (and in simulation mode simulate) one instruction of the
/// register/memory-to-register/memory family.
fn step_rm_to_rm(
    b: u8,
    operation: Operation,
    stream: &mut ByteStream,
    state: &mut MachineState,
    simulate: bool,
) -> (r: Result<StepRecord, DecodeError>)
    requires
        is_rm_to_rm(b),
        operation == spec_rm_to_rm_operation(b),
        1 <= old(stream).position(),
        old(state).clock + 32 <= u64::MAX,
    ensures
        final(stream).bytes() == old(stream).bytes(),
        ({
            let s = spec_step_rm_to_rm(
                b,
                old(stream).bytes(),
                old(stream).position() - 1,
                old(state)@,
                simulate,
            );
            &&& r == s.result
            &&& final(stream).position() == s.pos
            &&& final(state)@ == s.state
        }),
{
    let old_ip = stream.stream_position() - 1;
    let old_flags = state.flags;
    let next = match stream.read_byte() {
        Ok(n) => n,
        Err(_) => return Err(DecodeError::TruncatedStream),
    };
    let mod_value = (next & 0xc0) >> 6;
    let rm_field = (next & 0x07) as usize;
    let w = (b & 0x01) as usize;
    let d: u8 = (b & 0x02) >> 1;
    let reg_operand = Rm::Reg { w, reg: ((next & 0x38) >> 3) as usize };
    proof {
        assert((next & 0x07) < 8) by (bit_vector);
        assert((b & 0x01) <= 1) by (bit_vector);
        assert(((next & 0x38) >> 3) < 8) by (bit_vector);
    }
    let rm_operand = match Rm::new(stream, mod_value, w, rm_field) {
        Ok(rm) => rm,
        Err(_) => return Err(DecodeError::TruncatedStream),
    };
    let source = if d == 0 {
        reg_operand
    } else {
        rm_operand
    };
    let destination = if d == 0 {
        rm_operand
    } else {
        reg_operand
    };
    let input = SimulatorInput { source: Some(source), destination, immediate_value: None };
    let output = if simulate {
        match operation {
            Operation::Mov => MovRmToRmSimulator.simulate(state, input),
            Operation::Add => AddRmToRmSimulator.simulate(state, input),
            Operation::Sub => SubRmToRmSimulator.simulate(state, input),
            Operation::Cmp => CmpRmToRmSimulator.simulate(state, input),
        }
    } else {
        SimulatorOutput::default()
    };
    if simulate {
        state.clock = state.clock + output.number_of_cycles as u64;
    }
    let new_ip = stream.stream_position();
    Ok(
        StepRecord {
            decoded: Decoded::RmToRm { operation, destination, source },
            old_value: output.old_value,
            new_value: output.new_value,
            old_flags,
            new_flags: state.flags,
            cycles: output.number_of_cycles,
            clock: state.clock,
            old_ip,
            new_ip,
        },
    )
}

/// Decode one instruction of the immediate-to-accumulator family; the
/// family is decode-only, so the machine is never changed.
fn step_immediate_to_accumulator(
    b: u8,
    operation: Operation,
    stream: &mut ByteStream,
    state: &mut MachineState,
    simulate: bool,
) -> (r: Result<StepRecord, DecodeError>)
    requires
        is_immediate_to_accumulator(b),
        operation == spec_accumulator_operation(b),
        1 <= old(stream).position(),
    ensures
        final(stream).bytes() == old(stream).bytes(),
        ({
            let s = spec_step_immediate_to_accumulator(
                b,
                old(stream).bytes(),
                old(stream).position() - 1,
                old(state)@,
                simulate,
            );
            &&& r == s.result
            &&& final(stream).position() == s.pos
            &&& final(state)@ == s.state
        }),
{
    let old_ip = stream.stream_position() - 1;
    let old_flags = state.flags;
    let w: u8 = b & 0x01;
    let data = match stream.read_immediate(w == 0) {
        Ok(d) => d,
        Err(_) => return Err(DecodeError::TruncatedStream),
    };
    let new_ip = stream.stream_position();
    Ok(
        StepRecord {
            decoded: Decoded::ImmediateToAccumulator { operation, w: w as usize, data },
            old_value: 0,
            new_value: 0,
            old_flags,
            new_flags: state.flags,
            cycles: 0,
            clock: state.clock,
            old_ip,
            new_ip,
        },
    )
}

/// Decode one conditional jump and, in simulation mode, take it where
/// the mnemonic is `jne` and the zero flag is clear: the stream position
/// moves by the signed displacement, relative to the position after the
/// instruction. The machine itself never changes.
fn step_jump(
    b: u8,
    kind: JumpKind,
    stream: &mut ByteStream,
    state: &mut MachineState,
    simulate: bool,
) -> (r: Result<StepRecord, DecodeError>)
    requires
        spec_jump_kind(b) == Some(kind),
        1 <= old(stream).position(),
    ensures
        final(stream).bytes() == old(stream).bytes(),
        ({
            let s = spec_step_jump(
                b,
                old(stream).bytes(),
                old(stream).position() - 1,
                old(state)@,
                simulate,
                kind,
            );
            &&& r == s.result
            &&& final(stream).position() == s.pos
            &&& final(state)@ == s.state
        }),
{
    let old_ip = stream.stream_position() - 1;
    let old_flags = state.flags;
    let data = match stream.read_immediate(true) {
        Ok(d) => d,
        Err(_) => return Err(DecodeError::TruncatedStream),
    };
    if simulate && kind == JumpKind::Jne && !state.flags.zf {
        match stream.seek_relative(data) {
            Ok(_) => (),
            Err(_) => return Err(DecodeError::SeekOutOfRange),
        }
    }
    let new_ip = stream.stream_position();
    Ok(
        StepRecord {
            decoded: Decoded::Jump { kind, displacement: data },
            old_value: 0,
            new_value: 0,
            old_flags,
            new_flags: state.flags,
            cycles: 0,
            clock: state.clock,
            old_ip,
            new_ip,
        },
    )
}

/// Decode (and in simulation mode simulate) the next instruction of the
/// stream: classify its leading byte, consume the bytes its family calls
/// for, apply the matching handler to the machine, and return the trace
/// record. The full effect is `spec_step` of the stream and machine
/// before the call.
pub fn step(stream: &mut ByteStream, state: &mut MachineState, simulate: bool) -> (r: Result<
    StepRecord,
    DecodeError,
>)
    requires
        old(stream).position() < old(stream).bytes().len(),
        old(state).clock + 32 <= u64::MAX,
    ensures
        final(stream).bytes() == old(stream).bytes(),
        ({
            let s = spec_step(old(stream).bytes(), old(stream).position(), old(state)@, simulate);
            &&& r == s.result
            &&& final(stream).position() == s.pos
            &&& final(state)@ == s.state
        }),
        r is Err ==> final(state)@ == old(state)@,
        !simulate ==> final(state)@ == old(state)@,
        r is Ok ==> r->Ok_0.old_ip == old(stream).position() && r->Ok_0.new_ip
            == final(stream).position(),
        r is Ok ==> 0 <= r->Ok_0.cycles <= 32,
        r is Ok ==> final(state).clock == old(state).clock + (if simulate {
            r->Ok_0.cycles as int
        } else {
            0int
        }) && r->Ok_0.clock == final(state).clock,
        ({
            // A simulated word-width move-immediate-to-register stores the
            // immediate into exactly the register slot the opcode names and
            // leaves every other slot, the memory and the flags unchanged.
            let b = old(stream).bytes()[old(stream).position()];
            let reg = (b & 0x07) as int;
            let data = spec_immediate(old(stream).bytes(), old(stream).position() + 1, false);
            r is Ok && simulate && is_mov_immediate_to_register(b) && b & 0x08 == 0x08 ==> {
                &&& final(state).registers@ == old(state).registers@.update(reg, data)
                &&& (forall|j: int|
                    0 <= j < 8 && j != reg ==> final(state).registers@[j] == old(
                        state,
                    ).registers@[j])
                &&& final(state).memory@ == old(state).memory@
                &&& final(state).flags == old(state).flags
            }
        }),
{
    proof {
        stream.lemma_position_in_range();
    }
    let b = match stream.read_byte() {
        Ok(b) => b,
        Err(_) => vstd::pervasive::unreached(),
    };
    let r = match classify(b) {
        OpcodeClass::MovImmediateToRegister => step_mov_immediate_to_register(
            b,
            stream,
            state,
            simulate,
        ),
        OpcodeClass::ImmediateToRm => step_immediate_to_rm(b, stream, state, simulate),
        OpcodeClass::MovImmediateToRm => step_mov_immediate_to_rm(b, stream, state, simulate),
        OpcodeClass::RmToRm(operation) => step_rm_to_rm(b, operation, stream, state, simulate),
        OpcodeClass::ImmediateToAccumulator(operation) => step_immediate_to_accumulator(
            b,
            operation,
            stream,
            state,
            simulate,
        ),
        OpcodeClass::Jump(kind) => step_jump(b, kind, stream, state, simulate),
        OpcodeClass::Unknown => {
            let old_ip = stream.stream_position() - 1;
            let new_ip = stream.stream_position();
            Ok(
                StepRecord {
                    decoded: Decoded::Unknown { byte: b },
                    old_value: 0,
                    new_value: 0,
                    old_flags: state.flags,
                    new_flags: state.flags,
                    cycles: 0,
                    clock: state.clock,
                    old_ip,
                    new_ip,
                },
            )
        },
    };
    proof {
        stream.lemma_position_in_range();
    }
    r
}

/// A simulated `jne` whose zero flag is clear repositions the stream by
/// the sign-extended displacement byte, relative to the position right
/// after the instruction's two bytes, and leaves the machine itself
/// untouched — for every displacement and every start position whose
/// target is representable.
pub proof fn lemma_jne_taken_repositions(bytes: Seq<u8>, pos0: int, pre: MachineView)
    requires
        0 <= pos0,
        pos0 + 2 <= bytes.len(),
        bytes[pos0] == 0x75,
        !pre.flags.zf,
        0 <= pos0 + 2 + spec_sign_extend8(bytes[pos0 + 1]) <= usize::MAX,
    ensures
        ({
            let s = spec_step(bytes, pos0, pre, true);
            &&& s.result is Ok
            &&& s.result->Ok_0.decoded == Decoded::Jump {
                kind: JumpKind::Jne,
                displacement: spec_sign_extend8(bytes[pos0 + 1]),
            }
            &&& s.pos == pos0 + 2 + spec_sign_extend8(bytes[pos0 + 1])
            &&& s.state == pre
        }),
{
    lemma_jne_classified(bytes[pos0]);
}

/// A simulated `jne` whose zero flag is set falls through: the stream
/// stands right after the instruction's two bytes and the machine itself
/// is untouched — for every displacement and every start position.
pub proof fn lemma_jne_not_taken_falls_through(bytes: Seq<u8>, pos0: int, pre: MachineView)
    requires
        0 <= pos0,
        pos0 + 2 <= bytes.len(),
        bytes[pos0] == 0x75,
        pre.flags.zf,
    ensures
        ({
            let s = spec_step(bytes, pos0, pre, true);
            &&& s.result is Ok
            &&& s.result->Ok_0.decoded == Decoded::Jump {
                kind: JumpKind::Jne,
                displacement: spec_sign_extend8(bytes[pos0 + 1]),
            }
            &&& s.pos == pos0 + 2
            &&& s.state == pre
        }),
{
    lemma_jne_classified(bytes[pos0]);
}

/// The `jne` opcode byte belongs to no family but the conditional jumps.
proof fn lemma_jne_classified(b: u8)
    requires
        b == 0x75,
    ensures
        spec_classify(b) == OpcodeClass::Jump(JumpKind::Jne),
{
    assert(!(0x75u8 & 0xf0 == 0xb0)) by (bit_vector);
    assert(!(0x75u8 & 0xfc == 0x80)) by (bit_vector);
    assert(!(0x75u8 & 0xfe == 0xc6)) by (bit_vector);
    assert(!(0x75u8 & 0xfc == 0x88)) by (bit_vector);
    assert(!(0x75u8 & 0xfc == 0x00)) by (bit_vector);
    assert(!(0x75u8 & 0xfc == 0x28)) by (bit_vector);
    assert(!(0x75u8 & 0xfc == 0x38)) by (bit_vector);
    assert(!(0x75u8 & 0xfe == 0x04)) by (bit_vector);
    assert(!(0x75u8 & 0xfe == 0x2c)) by (bit_vector);
    assert(!(0x75u8 & 0xfe == 0x3c)) by (bit_vector);
}

/// The outcome of a whole decode-and-simulate run: the records (or the
/// fatal error), the stream position afterwards, and the machine
/// afterwards.
pub struct SpecRun {
    pub result: Result<Seq<StepRecord>, DecodeError>,
    pub pos: int,
    pub state: MachineView,
}

/// The full effect of running up to `fuel` decode-and-simulate steps
/// from `pos`: steps follow one another until the stream is exhausted,
/// the budget is spent, or a step fails — and then the whole run fails
/// with no records at all.
pub open spec fn spec_run(
    bytes: Seq<u8>,
    pos: int,
    pre: MachineView,
    simulate: bool,
    fuel: nat,
) -> SpecRun
    decreases fuel,
{
    if fuel == 0 || pos >= bytes.len() {
        SpecRun { result: Ok(Seq::empty()), pos, state: pre }
    } else {
        let s = spec_step(bytes, pos, pre, simulate);
        match s.result {
            Err(e) => SpecRun { result: Err(e), pos: s.pos, state: s.state },
            Ok(rec) => {
                let rest = spec_run(bytes, s.pos, s.state, simulate, (fuel - 1) as nat);
                match rest.result {
                    Err(e) => SpecRun { result: Err(e), pos: rest.pos, state: rest.state },
                    Ok(recs) => SpecRun {
                        result: Ok(seq![rec] + recs),
                        pos: rest.pos,
                        state: rest.state,
                    },
                }
            },
        }
    }
}

/// A run outcome with already-collected records prepended.
pub open spec fn spec_run_compose(done: Seq<StepRecord>, rest: SpecRun) -> SpecRun {
    match rest.result {
        Ok(recs) => SpecRun { result: Ok(done + recs), pos: rest.pos, state: rest.state },
        Err(e) => SpecRun { result: Err(e), pos: rest.pos, state: rest.state },
    }
}

/// Prepending nothing changes nothing.
proof fn lemma_compose_empty(rest: SpecRun)
    ensures
        spec_run_compose(Seq::empty(), rest) == rest,
{
    match rest.result {
        Ok(recs) => {
            assert(Seq::<StepRecord>::empty() + recs =~= recs);
        },
        Err(_) => {},
    }
}

/// Unfolding one successful step out of a run moves its record into the
/// collected prefix.
proof fn lemma_run_unfold_compose(
    done: Seq<StepRecord>,
    bytes: Seq<u8>,
    pos: int,
    st: MachineView,
    simulate: bool,
    fuel: nat,
)
    requires
        fuel > 0,
        pos < bytes.len(),
        spec_step(bytes, pos, st, simulate).result is Ok,
    ensures
        ({
            let s = spec_step(bytes, pos, st, simulate);
            spec_run_compose(done, spec_run(bytes, pos, st, simulate, fuel)) == spec_run_compose(
                done.push(s.result->Ok_0),
                spec_run(bytes, s.pos, s.state, simulate, (fuel - 1) as nat),
            )
        }),
{
    let s = spec_step(bytes, pos, st, simulate);
    let rec = s.result->Ok_0;
    let rest = spec_run(bytes, s.pos, s.state, simulate, (fuel - 1) as nat);
    match rest.result {
        Ok(recs) => {
            assert(done + (seq![rec] + recs) =~= done.push(rec) + recs);
        },
        Err(_) => {},
    }
}

/// The total estimated cycle cost of a sequence of trace records.
pub open spec fn spec_sum_cycles(recs: Seq<StepRecord>) -> int
    decreases recs.len(),
{
    if recs.len() == 0 {
        0
    } else {
        spec_sum_cycles(recs.drop_last()) + recs.last().cycles
    }
}

/// Appending one record adds its cost to the total.
proof fn lemma_sum_cycles_push(recs: Seq<StepRecord>, rec: StepRecord)
    ensures
        spec_sum_cycles(recs.push(rec)) == spec_sum_cycles(recs) + rec.cycles,
{
    assert(recs.push(rec).drop_last() =~= recs);
}

/// With every cost non-negative, longer prefixes never sum to less.
proof fn lemma_sum_cycles_take_monotonic(recs: Seq<StepRecord>, i: int, j: int)
    requires
        forall|k: int| 0 <= k < recs.len() ==> #[trigger] recs[k].cycles >= 0,
        0 <= i <= j <= recs.len(),
    ensures
        spec_sum_cycles(recs.take(i)) <= spec_sum_cycles(recs.take(j)),
    decreases j - i,
{
    if i < j {
        lemma_sum_cycles_take_monotonic(recs, i, j - 1);
        assert(recs.take(j).drop_last() =~= recs.take(j - 1));
        assert(recs.take(j).last() == recs[j - 1]);
    }
}

/// Cycle accounting is monotonically non-decreasing across a run: when
/// every record's cycle cost is non-negative and every record's
/// cumulative clock is the base clock plus the exact sum of the costs up
/// to and including it — as `run` ensures of its records in simulation
/// mode — no later record shows a smaller clock than an earlier one.
pub proof fn lemma_clock_monotonic(recs: Seq<StepRecord>, base: u64)
    requires
        forall|i: int| 0 <= i < recs.len() ==> #[trigger] recs[i].cycles >= 0,
        forall|i: int|
            0 <= i < recs.len() ==> #[trigger] recs[i].clock == base + spec_sum_cycles(
                recs.take(i + 1),
            ),
    ensures
        forall|i: int, j: int|
            #![trigger recs[i].clock, recs[j].clock]
            0 <= i <= j < recs.len() ==> recs[i].clock <= recs[j].clock,
{
    assert forall|i: int, j: int|
        #![trigger recs[i].clock, recs[j].clock]
        0 <= i <= j < recs.len() implies recs[i].clock <= recs[j].clock by {
        lemma_sum_cycles_take_monotonic(recs, i + 1, j + 1);
    }
}

/// Decode the whole stream, instruction by instruction, simulating each
/// one in simulation mode, and collect the trace records. The run ends
/// cleanly when no byte remains or `max_steps` records have been
/// produced (a budget, since a taken backward branch may revisit the
/// same bytes); it aborts with the step's error, and no records, when an
/// instruction cannot be completed. In simulation mode the machine's
/// clock advances by exactly the sum of the records' cycle costs, and
/// each record carries the cumulative clock up to and including itself;
/// without simulation the machine is left untouched.
pub fn run(
    stream: &mut ByteStream,
    state: &mut MachineState,
    simulate: bool,
    max_steps: usize,
) -> (r: Result<Vec<StepRecord>, DecodeError>)
    requires
        old(state).clock + 32 * (max_steps as int) <= u64::MAX,
    ensures
        final(stream).bytes() == old(stream).bytes(),
        ({
            let w = spec_run(
                old(stream).bytes(),
                old(stream).position(),
                old(state)@,
                simulate,
                max_steps as nat,
            );
            &&& (r is Ok ==> w.result == Ok::<Seq<StepRecord>, DecodeError>(r->Ok_0@))
            &&& (r is Err ==> w.result == Err::<Seq<StepRecord>, DecodeError>(r->Err_0))
            &&& final(stream).position() == w.pos
            &&& final(state)@ == w.state
        }),
        r is Ok ==> ({
            let recs = r->Ok_0@;
            &&& recs.len() <= max_steps
            &&& (recs.len() < max_steps ==> final(stream).position()
                >= final(stream).bytes().len())
            &&& (forall|i: int| 0 <= i < recs.len() ==> 0 <= #[trigger] recs[i].cycles <= 32)
            &&& (simulate ==> final(state).clock == old(state).clock + spec_sum_cycles(recs))
            &&& (simulate ==> forall|i: int|
                0 <= i < recs.len() ==> #[trigger] recs[i].clock == old(state).clock
                    + spec_sum_cycles(recs.take(i + 1)))
        }),
        !simulate ==> final(state)@ == old(state)@,
{
    let mut records: Vec<StepRecord> = Vec::new();
    proof {
        lemma_compose_empty(
            spec_run(
                old(stream).bytes(),
                old(stream).position(),
                old(state)@,
                simulate,
                max_steps as nat,
            ),
        );
    }
    while records.len() < max_steps && stream.has_more()
        invariant
            stream.bytes() == old(stream).bytes(),
            records@.len() <= max_steps,
            old(state).clock + 32 * (max_steps as int) <= u64::MAX,
            state.clock <= old(state).clock + 32 * records@.len(),
            forall|i: int| 0 <= i < records@.len() ==> 0 <= #[trigger] records@[i].cycles <= 32,
            simulate ==> state.clock == old(state).clock + spec_sum_cycles(records@),
            simulate ==> forall|i: int|
                0 <= i < records@.len() ==> #[trigger] records@[i].clock == old(state).clock
                    + spec_sum_cycles(records@.take(i + 1)),
            !simulate ==> state@ == old(state)@,
            spec_run(
                old(stream).bytes(),
                old(stream).position(),
                old(state)@,
                simulate,
                max_steps as nat,
            ) == spec_run_compose(
                records@,
                spec_run(
                    stream.bytes(),
                    stream.position(),
                    state@,
                    simulate,
                    (max_steps - records@.len()) as nat,
                ),
            ),
        decreases max_steps - records@.len(),
    {
        let ghost done = records@;
        let ghost pre_pos = stream.position();
        let ghost pre_state = state@;
        let ghost fuel = (max_steps - records@.len()) as nat;
        let rec = match step(stream, state, simulate) {
            Ok(rec) => rec,
            Err(e) => {
                return Err(e);
            },
        };
        proof {
            lemma_run_unfold_compose(
                done,
                stream.bytes(),
                pre_pos,
                pre_state,
                simulate,
                fuel,
            );
            lemma_sum_cycles_push(done, rec);
            assert forall|i: int| 0 <= i < done.len() implies #[trigger] done.push(rec).take(i + 1)
                == done.take(i + 1) by {
                assert(done.push(rec).take(i + 1) =~= done.take(i + 1));
            }
            assert(done.push(rec).take(done.len() as int + 1) =~= done.push(rec));
        }
        records.push(rec);
    }
    proof {
        assert(records@ + Seq::<StepRecord>::empty() =~= records@);
    }
    Ok(records)
}

} // verus!
