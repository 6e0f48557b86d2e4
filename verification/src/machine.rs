//! The simulated machine: eight 16-bit register slots, a 64 KiB
//! byte-addressable memory, the two condition flags, and the running
//! cycle estimate.

use vstd::prelude::*;

use crate::flag::Flags;
use crate::word::{as_signed, as_unsigned, spec_as_signed, spec_as_unsigned};

verus! {

/// The machine state a simulation run mutates. The instruction pointer is
/// not held here: it is the byte stream's current position.
#[verifier::ext_equal]
pub struct MachineState {
    /// Eight independent word slots; byte-width operations address the
    /// low or high half of the first four.
    pub registers: [i16; 8],
    /// 65536 independently addressable bytes.
    pub memory: [u8; 65536],
    /// Zero and sign flag.
    pub flags: Flags,
    /// Running estimated cycle count, non-decreasing over a run.
    pub clock: u64,
}

/// The machine state over mathematical views: the register file and the
/// memory as sequences. Contracts and the specification of a simulation
/// step are stated over this view.
pub struct MachineView {
    pub registers: Seq<i16>,
    pub memory: Seq<u8>,
    pub flags: Flags,
    pub clock: u64,
}

impl View for MachineState {
    type V = MachineView;

    open spec fn view(&self) -> MachineView {
        MachineView {
            registers: self.registers@,
            memory: self.memory@,
            flags: self.flags,
            clock: self.clock,
        }
    }
}

/// The value a register operand reads: the whole word slot for a
/// word-width operand; for a byte-width operand, the low byte of slot
/// `reg` when `reg < 4`, else the high byte of slot `reg - 4`, as an
/// unsigned byte value.
pub open spec fn spec_read_register(regs: Seq<i16>, w: int, reg: int) -> i16 {
    if w == 1 {
        regs[reg]
    } else if reg < 4 {
        (spec_as_unsigned(regs[reg]) % 256) as i16
    } else {
        (spec_as_unsigned(regs[reg - 4]) / 256) as i16
    }
}

/// The register file after a register operand is written: a word-width
/// write replaces the whole slot; a byte-width write stores the low byte
/// of `value` into the addressed half — the low half of slot `reg` when
/// `reg < 4`, else the high half of slot `reg - 4` — and preserves the
/// other half of that slot.
pub open spec fn spec_write_register(regs: Seq<i16>, w: int, reg: int, value: i16) -> Seq<i16> {
    if w == 1 {
        regs.update(reg, value)
    } else if reg < 4 {
        let slot = spec_as_unsigned(regs[reg]);
        regs.update(
            reg,
            spec_as_signed(((slot / 256) * 256 + spec_as_unsigned(value) % 256) as u16),
        )
    } else {
        let slot = spec_as_unsigned(regs[reg - 4]);
        regs.update(
            reg - 4,
            spec_as_signed(((spec_as_unsigned(value) % 256) * 256 + slot % 256) as u16),
        )
    }
}

impl MachineState {
    /// Read a register operand: the whole slot at word width, the
    /// addressed 8-bit half at byte width.
    pub fn read_register(&self, w: usize, reg: usize) -> (r: i16)
        requires
            w <= 1,
            reg < 8,
        ensures
            r == spec_read_register(self.registers@, w as int, reg as int),
    {
        if w == 1 {
            self.registers[reg]
        } else if reg < 4 {
            (as_unsigned(self.registers[reg]) % 256) as i16
        } else {
            (as_unsigned(self.registers[reg - 4]) / 256) as i16
        }
    }

    /// Write a register operand: a word-width write replaces the slot, a
    /// byte-width write stores into the addressed 8-bit half and leaves
    /// the other half of the slot untouched. Memory, flags and the clock
    /// are never touched.
    pub fn write_register(&mut self, w: usize, reg: usize, value: i16)
        requires
            w <= 1,
            reg < 8,
        ensures
            final(self).registers@ == spec_write_register(
                old(self).registers@,
                w as int,
                reg as int,
                value,
            ),
            final(self).memory == old(self).memory,
            final(self).flags == old(self).flags,
            final(self).clock == old(self).clock,
    {
        if w == 1 {
            self.registers[reg] = value;
        } else if reg < 4 {
            let slot = as_unsigned(self.registers[reg]);
            self.registers[reg] = as_signed(((slot / 256) * 256 + as_unsigned(value) % 256) as u16);
        } else {
            let slot = as_unsigned(self.registers[reg - 4]);
            self.registers[reg - 4] = as_signed(
                ((as_unsigned(value) % 256) * 256 + slot % 256) as u16,
            );
        }
    }

    /// A machine with all registers and memory zeroed, both flags clear,
    /// and the cycle count at zero.
    pub fn new() -> (s: MachineState)
        ensures
            s.registers@ =~= Seq::<i16>::new(8, |i: int| 0i16),
            s.memory@ =~= Seq::<u8>::new(65536, |i: int| 0u8),
            s.flags == (Flags { zf: false, sf: false }),
            s.clock == 0,
    {
        MachineState {
            registers: [0i16; 8],
            memory: [0u8; 65536],
            flags: Flags { zf: false, sf: false },
            clock: 0,
        }
    }
}

} // verus!
