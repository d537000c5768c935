//! An emulator core for a small 8-bit accumulator processor: register and
//! flag state, an opcode table, instruction semantics, and the
//! fetch-decode-execute loop.
pub mod flags;
pub mod instruction;
pub mod cpu;
pub mod machine;
pub mod theorems;
