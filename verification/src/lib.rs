//! SeqStk: a small stack-oriented virtual machine for short, self-contained
//! programs. It executes a byte-encoded instruction set over a fixed-size
//! linear memory and two evaluation stacks, operating on 32-bit signed words
//! interpreted as Q16.16 fixed-point rationals.
//!
//! Every public operation carries a contract: one machine cycle is specified
//! exactly by `vm::cycle_spec`, a mathematical step function over the
//! machine-state model `vm::VmState`.

pub mod bytes;
pub mod fp;
pub mod opcodes;
pub mod stk;
pub mod vm;
