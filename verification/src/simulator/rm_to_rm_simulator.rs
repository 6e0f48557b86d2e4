//! Handlers for the register/memory-to-register/memory instruction forms.

use vstd::prelude::*;

use crate::flag::{spec_flags_for, Flags};
use crate::machine::{
    spec_read_register, spec_write_register, MachineState, MachineView,
};
use crate::rm::{spec_estimate_cycles, spec_memory_index, Rm};
use crate::simulator::{
    displacement_index, sim_effect_applies, spec_displacement_index, SimEffect, SimulatorInput,
    SimulatorOutput,
};
use crate::word::{as_unsigned, low_byte, spec_as_unsigned, spec_low_byte};

verus! {

/// A handler for one register/memory-to-register/memory opcode. The
/// handler leaves the cycle counter alone and reports a small
/// non-negative cycle estimate.
pub trait RMToRmSimulator {
    fn simulate(&self, state: &mut MachineState, input: SimulatorInput) -> (output:
        SimulatorOutput)
        requires
            input.wf(),
            input.source is Some,
        ensures
            final(state).clock == old(state).clock,
            0 <= output.number_of_cycles <= 32,
    ;
}

/// The memory address a memory operand denotes: the absolute address for
/// the direct form, otherwise the base/index combination sum — plus the
/// displacement where the operand carries one — reduced to `0..65536`.
pub open spec fn spec_operand_address(operand: Rm, regs: Seq<i16>) -> int {
    match operand {
        Rm::DirectMemory(a) => a as int,
        Rm::MemoryNoDisplacment(i) => spec_as_unsigned(spec_memory_index(i as int, regs)),
        Rm::MemoryWithDisplacment { rm, displacment } => spec_as_unsigned(
            spec_displacement_index(rm as int, displacment, regs),
        ),
        Rm::Reg { .. } => 0,
    }
}

/// The effect of `mov` between register/memory operands.
///
/// A register destination takes the source value — a register operand
/// read at its width, or one byte read from the source's effective
/// address, zero-extended — and the flags are recomputed from the
/// destination's new value. A memory destination takes the low byte of a
/// register source; the flags are updated only for register
/// destinations. A memory-to-memory combination (never produced by the
/// decoder) stores nothing. Costs: 2 cycles register-to-register, 8 plus
/// the effective-address surcharge for a memory source, 9 plus the
/// surcharge for a memory destination.
pub open spec fn spec_mov_rm_to_rm(pre: MachineView, dst: Rm, src: Rm) -> SimEffect {
    let regs = pre.registers;
    let mem = pre.memory;
    match dst {
        Rm::Reg { w: dw, reg: d } => {
            let value = match src {
                Rm::Reg { w: sw, reg: s } => spec_read_register(regs, sw as int, s as int),
                _ => mem[spec_operand_address(src, regs)] as i16,
            };
            let cycles: i16 = match src {
                Rm::Reg { .. } => 2,
                _ => (8 + spec_estimate_cycles(src)) as i16,
            };
            let new_regs = spec_write_register(regs, dw as int, d as int, value);
            let new_value = spec_read_register(new_regs, dw as int, d as int);
            SimEffect {
                registers: new_regs,
                memory: mem,
                flags: spec_flags_for(new_value),
                output: SimulatorOutput {
                    old_value: spec_read_register(regs, dw as int, d as int),
                    new_value,
                    number_of_cycles: cycles,
                },
            }
        },
        _ => {
            let a = spec_operand_address(dst, regs);
            let cycles = (9 + spec_estimate_cycles(dst)) as i16;
            match src {
                Rm::Reg { w: sw, reg: s } => {
                    let stored = spec_low_byte(spec_read_register(regs, sw as int, s as int));
                    SimEffect {
                        registers: regs,
                        memory: mem.update(a, stored),
                        flags: pre.flags,
                        output: SimulatorOutput {
                            old_value: mem[a] as i16,
                            new_value: stored as i16,
                            number_of_cycles: cycles,
                        },
                    }
                },
                _ => SimEffect {
                    registers: regs,
                    memory: mem,
                    flags: pre.flags,
                    output: SimulatorOutput {
                        old_value: mem[a] as i16,
                        new_value: mem[a] as i16,
                        number_of_cycles: cycles,
                    },
                },
            }
        },
    }
}

pub struct MovRmToRmSimulator;

impl RMToRmSimulator for MovRmToRmSimulator {
    fn simulate(&self, state: &mut MachineState, input: SimulatorInput) -> (output:
        SimulatorOutput)
        ensures
            sim_effect_applies(
                spec_mov_rm_to_rm(old(state)@, input.destination, input.source->Some_0),
                old(state)@,
                final(state)@,
                output,
            ),
    {
        let source = match input.source {
            Some(s) => s,
            None => vstd::pervasive::unreached(),
        };
        let mut output = SimulatorOutput::default();
        match input.destination {
            Rm::Reg { w: dw, reg: d } => {
                output.old_value = state.read_register(dw, d);
                let value: i16 = match source {
                    Rm::Reg { w: sw, reg: s } => state.read_register(sw, s),
                    Rm::DirectMemory(a) => state.memory[a as usize] as i16,
                    Rm::MemoryNoDisplacment(_) => {
                        let idx = source.calculate_memory_index(&state.registers);
                        state.memory[as_unsigned(idx)] as i16
                    },
                    Rm::MemoryWithDisplacment { rm: ri, displacment } => {
                        let idx = displacement_index(ri, displacment, &state.registers);
                        state.memory[as_unsigned(idx)] as i16
                    },
                };
                output.number_of_cycles = match source {
                    Rm::Reg { .. } => 2,
                    _ => 8 + source.estimate_cycles(),
                };
                state.write_register(dw, d, value);
                output.new_value = state.read_register(dw, d);
                state.flags.update_from_number(output.new_value);
            },
            _ => {
                let a = match input.destination {
                    Rm::DirectMemory(address) => address as usize,
                    Rm::MemoryNoDisplacment(_) => as_unsigned(
                        input.destination.calculate_memory_index(&state.registers),
                    ),
                    Rm::MemoryWithDisplacment { rm: ri, displacment } => as_unsigned(
                        displacement_index(ri, displacment, &state.registers),
                    ),
                    Rm::Reg { .. } => vstd::pervasive::unreached(),
                };
                output.old_value = state.memory[a] as i16;
                if let Rm::Reg { w: sw, reg: s } = source {
                    let stored = low_byte(state.read_register(sw, s));
                    state.memory[a] = stored;
                    output.new_value = stored as i16;
                } else {
                    output.new_value = state.memory[a] as i16;
                }
                output.number_of_cycles = 9 + input.destination.estimate_cycles();
            },
        }
        output
    }
}

/// The effect of `add` between register/memory operands.
///
/// A register destination is increased, with 16-bit wrap-around at the
/// operand's width, by a register source or by the zero-extended byte at
/// the effective address of a no-displacement memory source, and the
/// flags are recomputed from the destination's new value (also when a
/// source form is not simulated and the destination keeps its value). A
/// memory destination is increased bytewise by the low byte of a
/// register source, with the flags recomputed from the new byte.
/// Memory-operand arithmetic is otherwise not simulated: direct-memory
/// destinations, memory sources other than the no-displacement form, and
/// memory-to-memory combinations change nothing and report no cost.
/// Costs: 3 cycles register-to-register, 9 plus the effective-address
/// surcharge for the simulated memory source, 16 plus the surcharge for
/// a memory destination.
pub open spec fn spec_add_rm_to_rm(pre: MachineView, dst: Rm, src: Rm) -> SimEffect {
    let regs = pre.registers;
    let mem = pre.memory;
    match dst {
        Rm::Reg { w: dw, reg: d } => {
            let old_value = spec_read_register(regs, dw as int, d as int);
            let (new_regs, cycles): (Seq<i16>, i16) = match src {
                Rm::Reg { w: sw, reg: s } => (
                    spec_write_register(
                        regs,
                        dw as int,
                        d as int,
                        vstd::wrapping::i16_specs::wrapping_add(
                            old_value,
                            spec_read_register(regs, sw as int, s as int),
                        ),
                    ),
                    3,
                ),
                Rm::MemoryNoDisplacment(_) => (
                    spec_write_register(
                        regs,
                        dw as int,
                        d as int,
                        vstd::wrapping::i16_specs::wrapping_add(
                            old_value,
                            mem[spec_operand_address(src, regs)] as i16,
                        ),
                    ),
                    (9 + spec_estimate_cycles(src)) as i16,
                ),
                _ => (regs, 0),
            };
            let new_value = spec_read_register(new_regs, dw as int, d as int);
            SimEffect {
                registers: new_regs,
                memory: mem,
                flags: spec_flags_for(new_value),
                output: SimulatorOutput { old_value, new_value, number_of_cycles: cycles },
            }
        },
        Rm::MemoryNoDisplacment(_) | Rm::MemoryWithDisplacment { .. } => {
            let a = spec_operand_address(dst, regs);
            match src {
                Rm::Reg { w: sw, reg: s } => {
                    let nb = vstd::wrapping::u8_specs::wrapping_add(
                        mem[a],
                        spec_low_byte(spec_read_register(regs, sw as int, s as int)),
                    );
                    SimEffect {
                        registers: regs,
                        memory: mem.update(a, nb),
                        flags: spec_flags_for(nb as i16),
                        output: SimulatorOutput {
                            old_value: mem[a] as i16,
                            new_value: nb as i16,
                            number_of_cycles: (16 + spec_estimate_cycles(dst)) as i16,
                        },
                    }
                },
                _ => SimEffect {
                    registers: regs,
                    memory: mem,
                    flags: pre.flags,
                    output: SimulatorOutput {
                        old_value: mem[a] as i16,
                        new_value: mem[a] as i16,
                        number_of_cycles: 0,
                    },
                },
            }
        },
        Rm::DirectMemory(_) => SimEffect {
            registers: regs,
            memory: mem,
            flags: pre.flags,
            output: SimulatorOutput { old_value: 0, new_value: 0, number_of_cycles: 0 },
        },
    }
}

pub struct AddRmToRmSimulator;

impl RMToRmSimulator for AddRmToRmSimulator {
    fn simulate(&self, state: &mut MachineState, input: SimulatorInput) -> (output:
        SimulatorOutput)
        ensures
            sim_effect_applies(
                spec_add_rm_to_rm(old(state)@, input.destination, input.source->Some_0),
                old(state)@,
                final(state)@,
                output,
            ),
    {
        let source = match input.source {
            Some(s) => s,
            None => vstd::pervasive::unreached(),
        };
        let mut output = SimulatorOutput::default();
        match input.destination {
            Rm::Reg { w: dw, reg: d } => {
                output.old_value = state.read_register(dw, d);
                match source {
                    Rm::Reg { w: sw, reg: s } => {
                        let value = output.old_value.wrapping_add(state.read_register(sw, s));
                        state.write_register(dw, d, value);
                        output.number_of_cycles = 3;
                    },
                    Rm::MemoryNoDisplacment(_) => {
                        let idx = source.calculate_memory_index(&state.registers);
                        let m = state.memory[as_unsigned(idx)] as i16;
                        let value = output.old_value.wrapping_add(m);
                        state.write_register(dw, d, value);
                        output.number_of_cycles = 9 + source.estimate_cycles();
                    },
                    _ => {},
                }
                output.new_value = state.read_register(dw, d);
                state.flags.update_from_number(output.new_value);
            },
            Rm::MemoryNoDisplacment(_) | Rm::MemoryWithDisplacment { .. } => {
                let a = match input.destination {
                    Rm::MemoryNoDisplacment(_) => as_unsigned(
                        input.destination.calculate_memory_index(&state.registers),
                    ),
                    Rm::MemoryWithDisplacment { rm: ri, displacment } => as_unsigned(
                        displacement_index(ri, displacment, &state.registers),
                    ),
                    _ => vstd::pervasive::unreached(),
                };
                output.old_value = state.memory[a] as i16;
                if let Rm::Reg { w: sw, reg: s } = source {
                    let nb = state.memory[a].wrapping_add(low_byte(state.read_register(sw, s)));
                    state.memory[a] = nb;
                    output.new_value = nb as i16;
                    output.number_of_cycles = 16 + input.destination.estimate_cycles();
                    state.flags.update_from_number(output.new_value);
                } else {
                    output.new_value = output.old_value;
                }
            },
            Rm::DirectMemory(_) => {},
        }
        output
    }
}

/// The effect of `sub` between register/memory operands.
///
/// Only a register destination with a register source is simulated: the
/// destination is decreased with 16-bit wrap-around at its width, at a
/// cost of 3 cycles. For any register destination the flags are
/// recomputed from the destination's (possibly unchanged) value; other
/// destinations change nothing at all.
pub open spec fn spec_sub_rm_to_rm(pre: MachineView, dst: Rm, src: Rm) -> SimEffect {
    let regs = pre.registers;
    match dst {
        Rm::Reg { w: dw, reg: d } => {
            let old_value = spec_read_register(regs, dw as int, d as int);
            let (new_regs, cycles): (Seq<i16>, i16) = match src {
                Rm::Reg { w: sw, reg: s } => (
                    spec_write_register(
                        regs,
                        dw as int,
                        d as int,
                        vstd::wrapping::i16_specs::wrapping_sub(
                            old_value,
                            spec_read_register(regs, sw as int, s as int),
                        ),
                    ),
                    3,
                ),
                _ => (regs, 0),
            };
            let new_value = spec_read_register(new_regs, dw as int, d as int);
            SimEffect {
                registers: new_regs,
                memory: pre.memory,
                flags: spec_flags_for(new_value),
                output: SimulatorOutput { old_value, new_value, number_of_cycles: cycles },
            }
        },
        _ => SimEffect {
            registers: regs,
            memory: pre.memory,
            flags: pre.flags,
            output: SimulatorOutput { old_value: 0, new_value: 0, number_of_cycles: 0 },
        },
    }
}

pub struct SubRmToRmSimulator;

impl RMToRmSimulator for SubRmToRmSimulator {
    fn simulate(&self, state: &mut MachineState, input: SimulatorInput) -> (output:
        SimulatorOutput)
        ensures
            sim_effect_applies(
                spec_sub_rm_to_rm(old(state)@, input.destination, input.source->Some_0),
                old(state)@,
                final(state)@,
                output,
            ),
    {
        let source = match input.source {
            Some(s) => s,
            None => vstd::pervasive::unreached(),
        };
        let mut output = SimulatorOutput::default();
        if let Rm::Reg { w: dw, reg: d } = input.destination {
            output.old_value = state.read_register(dw, d);
            if let Rm::Reg { w: sw, reg: s } = source {
                let value = output.old_value.wrapping_sub(state.read_register(sw, s));
                state.write_register(dw, d, value);
                output.number_of_cycles = 3;
            }
            output.new_value = state.read_register(dw, d);
            state.flags.update_from_number(output.new_value);
        }
        output
    }
}

/// The effect of `cmp` between register/memory operands.
///
/// The register file and the memory are never changed. For a register
/// destination with a register source the flags are recomputed from the
/// wrapped difference of the two operand reads, at a cost of 3 cycles;
/// every other combination changes nothing.
pub open spec fn spec_cmp_rm_to_rm(pre: MachineView, dst: Rm, src: Rm) -> SimEffect {
    let regs = pre.registers;
    match dst {
        Rm::Reg { w: dw, reg: d } => {
            let value = spec_read_register(regs, dw as int, d as int);
            let (new_flags, cycles): (Flags, i16) = match src {
                Rm::Reg { w: sw, reg: s } => (
                    spec_flags_for(
                        vstd::wrapping::i16_specs::wrapping_sub(
                            value,
                            spec_read_register(regs, sw as int, s as int),
                        ),
                    ),
                    3,
                ),
                _ => (pre.flags, 0),
            };
            SimEffect {
                registers: regs,
                memory: pre.memory,
                flags: new_flags,
                output: SimulatorOutput {
                    old_value: value,
                    new_value: value,
                    number_of_cycles: cycles,
                },
            }
        },
        _ => SimEffect {
            registers: regs,
            memory: pre.memory,
            flags: pre.flags,
            output: SimulatorOutput { old_value: 0, new_value: 0, number_of_cycles: 0 },
        },
    }
}

pub struct CmpRmToRmSimulator;

impl RMToRmSimulator for CmpRmToRmSimulator {
    fn simulate(&self, state: &mut MachineState, input: SimulatorInput) -> (output:
        SimulatorOutput)
        ensures
            sim_effect_applies(
                spec_cmp_rm_to_rm(old(state)@, input.destination, input.source->Some_0),
                old(state)@,
                final(state)@,
                output,
            ),
            final(state).registers@ == old(state).registers@,
            final(state).memory@ == old(state).memory@,
    {
        let source = match input.source {
            Some(s) => s,
            None => vstd::pervasive::unreached(),
        };
        let mut output = SimulatorOutput::default();
        if let Rm::Reg { w: dw, reg: d } = input.destination {
            output.old_value = state.read_register(dw, d);
            if let Rm::Reg { w: sw, reg: s } = source {
                let difference = output.old_value.wrapping_sub(state.read_register(sw, s));
                state.flags.update_from_number(difference);
                output.number_of_cycles = 3;
            }
            output.new_value = output.old_value;
        }
        output
    }
}

} // verus!
