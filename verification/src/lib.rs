//! Decoder and simulator for a small subset of the 8086 instruction set.
//!
//! The crate decodes a byte stream into instruction records (`mov`, `add`,
//! `sub`, `cmp`, the accumulator-immediate forms and the conditional-jump
//! family) and can simulate the architectural effect of each decoded
//! instruction on a small machine state: eight 16-bit registers, a 64 KiB
//! byte-addressable memory, a zero flag and a sign flag, and a running
//! instruction-cycle estimate.
//!
//! Reading the bytes from a file and rendering the decoded records as text
//! are left to the caller; the library works on in-memory byte sequences
//! and plain values only.

pub mod decoder;
pub mod flag;
pub mod machine;
pub mod rm;
pub mod simulator;
pub mod stream;
pub mod word;
