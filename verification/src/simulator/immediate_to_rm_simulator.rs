//! Handlers for the immediate-to-register/memory instruction forms.

use vstd::prelude::*;

use crate::flag::spec_flags_for;
use crate::machine::{
    spec_read_register, spec_write_register, MachineState, MachineView,
};
use crate::rm::{spec_estimate_cycles, Rm};
use crate::simulator::rm_to_rm_simulator::spec_operand_address;
use crate::simulator::{
    displacement_index, sim_effect_applies, SimEffect, SimulatorInput, SimulatorOutput,
};
use crate::word::{as_unsigned, low_byte, spec_low_byte};

verus! {

/// A handler for one immediate-to-register/memory opcode. The handler
/// leaves the cycle counter alone and reports a small non-negative cycle
/// estimate.
pub trait ImmediateToRMSimulator {
    fn simulate(&self, state: &mut MachineState, input: SimulatorInput) -> (output:
        SimulatorOutput)
        requires
            input.wf(),
            input.immediate_value is Some,
        ensures
            final(state).clock == old(state).clock,
            0 <= output.number_of_cycles <= 32,
    ;
}

/// The effect of the dedicated move-immediate form.
///
/// A register destination takes the immediate verbatim, at the operand's
/// width, and the flags are recomputed from the destination's new value.
/// A memory destination takes the low byte of the immediate at its
/// effective address, with the flags left alone. Costs: 4 cycles for a
/// register destination, 10 plus the effective-address surcharge for a
/// memory destination.
pub open spec fn spec_mov_immediate_to_rm(pre: MachineView, dst: Rm, imm: i16) -> SimEffect {
    let regs = pre.registers;
    let mem = pre.memory;
    match dst {
        Rm::Reg { w: dw, reg: d } => {
            let new_regs = spec_write_register(regs, dw as int, d as int, imm);
            let new_value = spec_read_register(new_regs, dw as int, d as int);
            SimEffect {
                registers: new_regs,
                memory: mem,
                flags: spec_flags_for(new_value),
                output: SimulatorOutput {
                    old_value: spec_read_register(regs, dw as int, d as int),
                    new_value,
                    number_of_cycles: 4,
                },
            }
        },
        _ => {
            let a = spec_operand_address(dst, regs);
            SimEffect {
                registers: regs,
                memory: mem.update(a, spec_low_byte(imm)),
                flags: pre.flags,
                output: SimulatorOutput {
                    old_value: mem[a] as i16,
                    new_value: spec_low_byte(imm) as i16,
                    number_of_cycles: (10 + spec_estimate_cycles(dst)) as i16,
                },
            }
        },
    }
}

pub struct MovImmediateToRMSimulator;

impl ImmediateToRMSimulator for MovImmediateToRMSimulator {
    fn simulate(&self, state: &mut MachineState, input: SimulatorInput) -> (output:
        SimulatorOutput)
        ensures
            sim_effect_applies(
                spec_mov_immediate_to_rm(
                    old(state)@,
                    input.destination,
                    input.immediate_value->Some_0,
                ),
                old(state)@,
                final(state)@,
                output,
            ),
    {
        let imm = match input.immediate_value {
            Some(v) => v,
            None => vstd::pervasive::unreached(),
        };
        let mut output = SimulatorOutput::default();
        match input.destination {
            Rm::Reg { w: dw, reg: d } => {
                output.old_value = state.read_register(dw, d);
                state.write_register(dw, d, imm);
                output.new_value = state.read_register(dw, d);
                output.number_of_cycles = 4;
                state.flags.update_from_number(output.new_value);
            },
            _ => {
                let a = match input.destination {
                    Rm::DirectMemory(address) => address as usize,
                    Rm::MemoryNoDisplacment(_) => as_unsigned(
                        input.destination.calculate_memory_index(&state.registers),
                    ),
                    Rm::MemoryWithDisplacment { rm: ri, displacment } => as_unsigned(
                        displacement_index(ri, displacment, &state.registers),
                    ),
                    Rm::Reg { .. } => vstd::pervasive::unreached(),
                };
                output.old_value = state.memory[a] as i16;
                let stored = low_byte(imm);
                state.memory[a] = stored;
                output.new_value = stored as i16;
                output.number_of_cycles = 10 + input.destination.estimate_cycles();
            },
        }
        output
    }
}

/// The effect of the generic add-immediate form: a register destination
/// is increased by the immediate, with 16-bit wrap-around at the
/// operand's width, the flags are recomputed from the destination's new
/// value, and the cost is 4 cycles. Immediate arithmetic on a memory
/// destination is not simulated: it changes nothing and reports no cost.
pub open spec fn spec_add_immediate_to_rm(pre: MachineView, dst: Rm, imm: i16) -> SimEffect {
    let regs = pre.registers;
    match dst {
        Rm::Reg { w: dw, reg: d } => {
            let old_value = spec_read_register(regs, dw as int, d as int);
            let new_regs = spec_write_register(
                regs,
                dw as int,
                d as int,
                vstd::wrapping::i16_specs::wrapping_add(old_value, imm),
            );
            let new_value = spec_read_register(new_regs, dw as int, d as int);
            SimEffect {
                registers: new_regs,
                memory: pre.memory,
                flags: spec_flags_for(new_value),
                output: SimulatorOutput { old_value, new_value, number_of_cycles: 4 },
            }
        },
        _ => SimEffect {
            registers: regs,
            memory: pre.memory,
            flags: pre.flags,
            output: SimulatorOutput { old_value: 0, new_value: 0, number_of_cycles: 0 },
        },
    }
}

pub struct AddImmediateToRMSimulator;

impl ImmediateToRMSimulator for AddImmediateToRMSimulator {
    fn simulate(&self, state: &mut MachineState, input: SimulatorInput) -> (output:
        SimulatorOutput)
        ensures
            sim_effect_applies(
                spec_add_immediate_to_rm(
                    old(state)@,
                    input.destination,
                    input.immediate_value->Some_0,
                ),
                old(state)@,
                final(state)@,
                output,
            ),
    {
        let imm = match input.immediate_value {
            Some(v) => v,
            None => vstd::pervasive::unreached(),
        };
        let mut output = SimulatorOutput::default();
        if let Rm::Reg { w: dw, reg: d } = input.destination {
            output.old_value = state.read_register(dw, d);
            let value = output.old_value.wrapping_add(imm);
            state.write_register(dw, d, value);
            output.new_value = state.read_register(dw, d);
            output.number_of_cycles = 4;
            state.flags.update_from_number(output.new_value);
        }
        output
    }
}

/// The effect of the generic subtract-immediate form: a register
/// destination is decreased by the immediate, with 16-bit wrap-around at
/// the operand's width, the flags are recomputed from the destination's
/// new value, and the cost is 4 cycles. Immediate arithmetic on a memory
/// destination is not simulated: it changes nothing and reports no cost.
pub open spec fn spec_sub_immediate_to_rm(pre: MachineView, dst: Rm, imm: i16) -> SimEffect {
    let regs = pre.registers;
    match dst {
        Rm::Reg { w: dw, reg: d } => {
            let old_value = spec_read_register(regs, dw as int, d as int);
            let new_regs = spec_write_register(
                regs,
                dw as int,
                d as int,
                vstd::wrapping::i16_specs::wrapping_sub(old_value, imm),
            );
            let new_value = spec_read_register(new_regs, dw as int, d as int);
            SimEffect {
                registers: new_regs,
                memory: pre.memory,
                flags: spec_flags_for(new_value),
                output: SimulatorOutput { old_value, new_value, number_of_cycles: 4 },
            }
        },
        _ => SimEffect {
            registers: regs,
            memory: pre.memory,
            flags: pre.flags,
            output: SimulatorOutput { old_value: 0, new_value: 0, number_of_cycles: 0 },
        },
    }
}

pub struct SubImmediateToRMSimulator;

impl ImmediateToRMSimulator for SubImmediateToRMSimulator {
    fn simulate(&self, state: &mut MachineState, input: SimulatorInput) -> (output:
        SimulatorOutput)
        ensures
            sim_effect_applies(
                spec_sub_immediate_to_rm(
                    old(state)@,
                    input.destination,
                    input.immediate_value->Some_0,
                ),
                old(state)@,
                final(state)@,
                output,
            ),
    {
        let imm = match input.immediate_value {
            Some(v) => v,
            None => vstd::pervasive::unreached(),
        };
        let mut output = SimulatorOutput::default();
        if let Rm::Reg { w: dw, reg: d } = input.destination {
            output.old_value = state.read_register(dw, d);
            let value = output.old_value.wrapping_sub(imm);
            state.write_register(dw, d, value);
            output.new_value = state.read_register(dw, d);
            output.number_of_cycles = 4;
            state.flags.update_from_number(output.new_value);
        }
        output
    }
}

/// The effect of the compare-immediate form: the register file and the
/// memory are never changed. For a register destination the flags are
/// recomputed from the wrapped difference of the destination's value and
/// the immediate, at a cost of 4 cycles, and both reported values are
/// the destination's (unchanged) value. A memory destination is not
/// simulated: it changes nothing and reports no cost.
pub open spec fn spec_cmp_immediate_to_rm(pre: MachineView, dst: Rm, imm: i16) -> SimEffect {
    let regs = pre.registers;
    match dst {
        Rm::Reg { w: dw, reg: d } => {
            let value = spec_read_register(regs, dw as int, d as int);
            SimEffect {
                registers: regs,
                memory: pre.memory,
                flags: spec_flags_for(
                    vstd::wrapping::i16_specs::wrapping_sub(value, imm),
                ),
                output: SimulatorOutput {
                    old_value: value,
                    new_value: value,
                    number_of_cycles: 4,
                },
            }
        },
        _ => SimEffect {
            registers: regs,
            memory: pre.memory,
            flags: pre.flags,
            output: SimulatorOutput { old_value: 0, new_value: 0, number_of_cycles: 0 },
        },
    }
}

pub struct CmpImmediateToRMSimulator;

impl ImmediateToRMSimulator for CmpImmediateToRMSimulator {
    fn simulate(&self, state: &mut MachineState, input: SimulatorInput) -> (output:
        SimulatorOutput)
        ensures
            sim_effect_applies(
                spec_cmp_immediate_to_rm(
                    old(state)@,
                    input.destination,
                    input.immediate_value->Some_0,
                ),
                old(state)@,
                final(state)@,
                output,
            ),
            final(state).registers@ == old(state).registers@,
            final(state).memory@ == old(state).memory@,
    {
        let imm = match input.immediate_value {
            Some(v) => v,
            None => vstd::pervasive::unreached(),
        };
        let mut output = SimulatorOutput::default();
        if let Rm::Reg { w: dw, reg: d } = input.destination {
            let value = state.read_register(dw, d);
            let difference = value.wrapping_sub(imm);
            state.flags.update_from_number(difference);
            output.old_value = value;
            output.new_value = value;
            output.number_of_cycles = 4;
        }
        output
    }
}

} // verus!
