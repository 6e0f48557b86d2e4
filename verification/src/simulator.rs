//! Per-opcode simulation: each handler computes the new machine state,
//! the value before and after the mutation, and the estimated cycle cost
//! of the instruction.

use vstd::prelude::*;

use crate::machine::MachineView;
use crate::rm::Rm;

pub mod immediate_to_rm_simulator;
pub mod rm_to_rm_simulator;

verus! {

/// The operands a handler works on. The machine state itself is passed
/// separately by exclusive mutable access.
#[derive(Clone, Copy, Debug, PartialEq, Eq)]
pub struct SimulatorInput {
    /// Source operand, for the register/memory-to-register/memory forms.
    pub source: Option<Rm>,
    /// Destination operand.
    pub destination: Rm,
    /// Immediate value, for the immediate forms.
    pub immediate_value: Option<i16>,
}

impl SimulatorInput {
    /// Validity: every operand present carries three-bit fields.
    pub open spec fn wf(self) -> bool {
        &&& self.destination.wf()
        &&& self.source is Some ==> self.source->Some_0.wf()
    }
}

/// What a handler reports for the trace: the destination value before and
/// after the mutation, and the estimated cycle cost.
#[derive(Clone, Copy, Debug, PartialEq, Eq, Structural)]
pub struct SimulatorOutput {
    pub old_value: i16,
    pub new_value: i16,
    pub number_of_cycles: i16,
}

impl core::default::Default for SimulatorOutput {
    /// All fields zero.
    fn default() -> (r: SimulatorOutput)
        ensures
            r == (SimulatorOutput { old_value: 0, new_value: 0, number_of_cycles: 0 }),
    {
        SimulatorOutput { old_value: 0, new_value: 0, number_of_cycles: 0 }
    }
}

/// The full effect of one handler, stated over mathematical views of the
/// machine: the new register file, the new memory, the new flags, and the
/// reported output. The cycle counter is never touched by a handler.
pub struct SimEffect {
    pub registers: Seq<i16>,
    pub memory: Seq<u8>,
    pub flags: crate::flag::Flags,
    pub output: SimulatorOutput,
}

/// Whether a handler call that turned `pre` into `post` returning
/// `output` had exactly the effect `e`.
pub open spec fn sim_effect_applies(
    e: SimEffect,
    pre: MachineView,
    post: MachineView,
    output: SimulatorOutput,
) -> bool {
    &&& post.registers == e.registers
    &&& post.memory == e.memory
    &&& post.flags == e.flags
    &&& post.clock == pre.clock
    &&& output == e.output
}

/// The machine view a handler effect leaves behind: the state it
/// describes, with the cycle counter untouched.
pub open spec fn spec_apply_effect(pre: MachineView, e: SimEffect) -> MachineView {
    MachineView { registers: e.registers, memory: e.memory, flags: e.flags, clock: pre.clock }
}

/// The signed effective address of a with-displacement memory operand:
/// the sum of the base/index register combination the r/m field selects,
/// plus the sign-extended displacement, with 16-bit wrap-around.
pub open spec fn spec_displacement_index(rm_field: int, displacment: u16, regs: Seq<i16>) -> i16 {
    vstd::wrapping::i16_specs::wrapping_add(
        crate::rm::spec_memory_index(rm_field, regs),
        crate::word::spec_as_signed(displacment),
    )
}

/// Compute the signed effective address of a with-displacement memory
/// operand from the base/index combination and the displacement.
pub fn displacement_index(rm_field: usize, displacment: u16, registers: &[i16; 8]) -> (r: i16)
    requires
        rm_field < 8,
    ensures
        r == spec_displacement_index(rm_field as int, displacment, registers@),
{
    let combination = Rm::MemoryNoDisplacment(rm_field);
    let base = combination.calculate_memory_index(registers);
    base.wrapping_add(crate::word::as_signed(displacment))
}

} // verus!
