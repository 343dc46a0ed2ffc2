//! A verified instruction-execution core for the MOS 6502 microprocessor.
//!
//! The library models register state, the status flags, a flat 64KB memory,
//! and the fetch-decode-execute cycle for the full official instruction set,
//! including the documented addressing quirks (zero-page wraparound, the
//! indirect-`JMP` page-boundary bug), per-instruction cycle costs with
//! page-crossing and branch-taken penalties, and reset/interrupt/stack
//! behaviour. Every executable function carries a contract stated over the
//! mathematical model in [`machine`], and Verus proves the implementation
//! against it.

pub mod addressing;
pub mod cpu;
pub mod laws;
pub mod machine;
pub mod semantics;
pub mod status;
pub mod table;
