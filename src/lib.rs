//! Instruction-level model of the Sharp LR35902 processor: register file,
//! packed condition flags, the segmented memory bus and the execution engine.

pub mod cpu;
pub mod flags;
pub mod instruction;
pub mod memory;
pub mod registers;

pub use cpu::{Cpu, UnknownInstruction};
pub use flags::{Flag, FlagsRegister};
pub use instruction::{AluOp, Cond, HlStep, Instruction, PrefixedInstruction, ShiftOp, StackPair};
pub use memory::{FlatMemory, Memory, MemoryBus, Region};
pub use registers::{Pair, Reg, RegisterState, Registers};
